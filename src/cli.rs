//! The two unit prices taken from the program's arguments.
use vstd::prelude::*;
use vstd::utf8::encode_utf8;
use crate::stats::CostTable;

verus! {

/// Whether `c` is an ASCII decimal digit.
pub open spec fn is_digit(c: u8) -> bool {
    48 <= c <= 57
}

/// Whether every byte of `d` is a decimal digit.
pub open spec fn all_digits(d: Seq<u8>) -> bool {
    forall|i: int| 0 <= i < d.len() ==> is_digit(#[trigger] d[i])
}

/// The number that the decimal digits `d` spell, most significant first.
pub open spec fn digits_value(d: Seq<u8>) -> int
    decreases d.len(),
{
    if d.len() == 0 {
        0
    } else {
        digits_value(d.drop_last()) * 10 + (d.last() - 48)
    }
}

/// The digits of a count: the text without one leading `+`, if it has one.
pub open spec fn unsigned_digits(b: Seq<u8>) -> Seq<u8> {
    if b.len() > 0 && b[0] == 43 {
        b.drop_first()
    } else {
        b
    }
}

/// Whether the text `b` is a count: an optional `+` and at least one decimal
/// digit, nothing else, with a value that fits a `usize`.
pub open spec fn is_count(b: Seq<u8>) -> bool {
    let d = unsigned_digits(b);
    d.len() > 0 && all_digits(d) && digits_value(d) <= usize::MAX
}

/// The value of the count `b`.
pub open spec fn count_value(b: Seq<u8>) -> int {
    digits_value(unsigned_digits(b))
}

proof fn lemma_digits_prefix(d: Seq<u8>, k: int)
    requires
        all_digits(d),
        0 <= k <= d.len(),
    ensures
        0 <= digits_value(d.take(k)) <= digits_value(d),
    decreases d.len(),
{
    if k < d.len() {
        let e = d.drop_last();
        assert(d.take(k) =~= e.take(k));
        lemma_digits_prefix(e, k);
    } else {
        assert(d.take(k) =~= d);
        if d.len() > 0 {
            lemma_digits_prefix(d.drop_last(), d.len() - 1);
            assert(d.drop_last().take(d.len() - 1) =~= d.drop_last());
        }
    }
}

/// Reads a count written in decimal, as std reads a `usize`.
pub fn parse_count(s: &str) -> (r: Option<usize>)
    ensures
        r is Some <==> is_count(encode_utf8(s@)),
        r is Some ==> r->0 == count_value(encode_utf8(s@)),
{
    let b = s.as_bytes();
    let ghost bs = encode_utf8(s@);
    let mut start: usize = 0;
    if b.len() > 0 && b[0] == 43 {
        start = 1;
    }
    let ghost d = unsigned_digits(bs);
    assert(d =~= b@.subrange(start as int, b@.len() as int));
    if start == b.len() {
        return None;
    }
    let mut acc: usize = 0;
    let mut i: usize = start;
    while i < b.len()
        invariant
            b@ == bs,
            bs == encode_utf8(s@),
            d == unsigned_digits(bs),
            d == bs.subrange(start as int, bs.len() as int),
            start <= i <= b.len(),
            start < b.len(),
            all_digits(bs.subrange(start as int, i as int)),
            acc == digits_value(bs.subrange(start as int, i as int)),
        decreases b.len() - i,
    {
        let c = b[i];
        if c < 48 || c > 57 {
            assert(d[i - start] == c);
            return None;
        }
        let ghost next = bs.subrange(start as int, i + 1);
        assert(next.drop_last() =~= bs.subrange(start as int, i as int));
        assert(all_digits(next));
        assert(next =~= d.take(i + 1 - start));
        let v = match acc.checked_mul(10) {
            Some(v) => v,
            None => {
                proof {
                    if all_digits(d) {
                        lemma_digits_prefix(d, i + 1 - start);
                    }
                }
                return None;
            },
        };
        acc = match v.checked_add((c - 48) as usize) {
            Some(w) => w,
            None => {
                proof {
                    if all_digits(d) {
                        lemma_digits_prefix(d, i + 1 - start);
                    }
                }
                return None;
            },
        };
        i = i + 1;
    }
    Some(acc)
}

/// Why the prices could not be taken from the arguments.
#[derive(Clone, Copy, Debug, PartialEq, Eq, Structural)]
pub enum ArgError {
    MissingClusterCost,
    MissingDreamMatterCost,
    ClusterCostNotANumber,
    DreamMatterCostNotANumber,
}

impl ArgError {
    /// The message shown to the user. Both parse failures share one text.
    pub fn message(&self) -> (r: &'static str)
        ensures
            *self == ArgError::MissingClusterCost ==> r@
                == "Please provide the cluster of solace cost."@,
            *self == ArgError::MissingDreamMatterCost ==> r@
                == "Please provide the dream matter cost."@,
            *self == ArgError::ClusterCostNotANumber ==> r@ == "Failed to parse the cluster cost."@,
            *self == ArgError::DreamMatterCostNotANumber ==> r@
                == "Failed to parse the cluster cost."@,
    {
        match self {
            ArgError::MissingClusterCost => "Please provide the cluster of solace cost.",
            ArgError::MissingDreamMatterCost => "Please provide the dream matter cost.",
            ArgError::ClusterCostNotANumber => "Failed to parse the cluster cost.",
            ArgError::DreamMatterCostNotANumber => "Failed to parse the cluster cost.",
        }
    }
}

/// The prices from the program's arguments, the program's name first: the
/// cluster price comes second, the dream matter price third. Missing
/// arguments are reported before unreadable ones, the cluster price first.
pub fn cost_table(args: &Vec<String>) -> (r: Result<CostTable, ArgError>)
    ensures
        args.len() < 2 ==> r == Err::<CostTable, ArgError>(ArgError::MissingClusterCost),
        args.len() == 2 ==> r == Err::<CostTable, ArgError>(ArgError::MissingDreamMatterCost),
        args.len() > 2 && !is_count(encode_utf8(args@[1]@)) ==> r == Err::<CostTable, ArgError>(
            ArgError::ClusterCostNotANumber,
        ),
        args.len() > 2 && is_count(encode_utf8(args@[1]@)) && !is_count(encode_utf8(args@[2]@))
            ==> r == Err::<CostTable, ArgError>(ArgError::DreamMatterCostNotANumber),
        args.len() > 2 && is_count(encode_utf8(args@[1]@)) && is_count(encode_utf8(args@[2]@))
            ==> r == Ok::<CostTable, ArgError>(
            CostTable {
                cluster_cost: count_value(encode_utf8(args@[1]@)) as usize,
                dream_matter_cost: count_value(encode_utf8(args@[2]@)) as usize,
            },
        ),
{
    if args.len() < 2 {
        return Err(ArgError::MissingClusterCost);
    }
    if args.len() < 3 {
        return Err(ArgError::MissingDreamMatterCost);
    }
    let cluster_cost = match parse_count(args[1].as_str()) {
        Some(c) => c,
        None => return Err(ArgError::ClusterCostNotANumber),
    };
    let dream_matter_cost = match parse_count(args[2].as_str()) {
        Some(c) => c,
        None => return Err(ArgError::DreamMatterCostNotANumber),
    };
    Ok(CostTable { cluster_cost, dream_matter_cost })
}

} // verus!
