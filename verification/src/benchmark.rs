//! The fixed parts of the compression benchmark: which payloads it reads,
//! in which order, under which file names, and how often each is timed.
use vstd::prelude::*;
use crate::text_support::{owned, push_str, same_text};

verus! {

/// The payload kinds, in benchmark order.
pub open spec fn payload_kinds() -> Seq<Seq<char>> {
    seq!["json"@, "text"@, "binary"@, "random"@]
}

/// The payload sizes, in benchmark order.
pub open spec fn payload_sizes() -> Seq<Seq<char>> {
    seq!["small"@, "medium"@, "large"@]
}

/// How many times a payload of the given size is timed: 500 small, 80
/// medium, 10 otherwise.
pub open spec fn iterations_spec(size: Seq<char>) -> u32 {
    if size == "small"@ {
        500
    } else if size == "medium"@ {
        80
    } else {
        10
    }
}

/// The timing iterations for a payload size.
pub fn iterations_for(size: &str) -> (n: u32)
    ensures
        n == iterations_spec(size@),
{
    if same_text(size, "small") {
        500
    } else if same_text(size, "medium") {
        80
    } else {
        10
    }
}

/// The payloads the benchmark reads, as (kind, size) pairs: every kind
/// with every size, kinds outermost.
pub fn payload_matrix() -> (r: Vec<(&'static str, &'static str)>)
    ensures
        r.len() == payload_kinds().len() * payload_sizes().len(),
        forall|i: int|
            0 <= i < r.len() ==> (#[trigger] r[i]).0@ == payload_kinds()[i / 3] && r[i].1@
                == payload_sizes()[i % 3],
{
    let kinds: [&'static str; 4] = ["json", "text", "binary", "random"];
    let sizes: [&'static str; 3] = ["small", "medium", "large"];
    proof {
        reveal_strlit("json");
        reveal_strlit("text");
        reveal_strlit("binary");
        reveal_strlit("random");
        reveal_strlit("small");
        reveal_strlit("medium");
        reveal_strlit("large");
        assert(kinds@.map_values(|k: &str| k@) =~= payload_kinds());
        assert(sizes@.map_values(|k: &str| k@) =~= payload_sizes());
    }
    let mut r: Vec<(&'static str, &'static str)> = Vec::new();
    let mut k: usize = 0;
    while k < 4
        invariant
            k <= 4,
            r.len() == 3 * k,
            kinds@.map_values(|k: &str| k@) == payload_kinds(),
            sizes@.map_values(|k: &str| k@) == payload_sizes(),
            forall|i: int|
                0 <= i < r.len() ==> (#[trigger] r[i]).0@ == payload_kinds()[i / 3] && r[i].1@
                    == payload_sizes()[i % 3],
        decreases 4 - k,
    {
        let mut j: usize = 0;
        while j < 3
            invariant
                k < 4,
                j <= 3,
                r.len() == 3 * k + j,
                kinds@.map_values(|k: &str| k@) == payload_kinds(),
                sizes@.map_values(|k: &str| k@) == payload_sizes(),
                forall|i: int|
                    0 <= i < r.len() ==> (#[trigger] r[i]).0@ == payload_kinds()[i / 3] && r[i].1@
                        == payload_sizes()[i % 3],
            decreases 3 - j,
        {
            proof {
                assert(kinds@.map_values(|k: &str| k@)[k as int] == kinds@[k as int]@);
                assert(sizes@.map_values(|k: &str| k@)[j as int] == sizes@[j as int]@);
                assert((3 * k + j) / 3 == k) by (nonlinear_arith)
                    requires
                        j < 3,
                ;
                assert((3 * k + j) % 3 == j) by (nonlinear_arith)
                    requires
                        j < 3,
                ;
            }
            r.push((kinds[k], sizes[j]));
            j = j + 1;
        }
        k = k + 1;
    }
    r
}

/// The file that holds a payload: `{kind}-{size}.bin`.
pub fn fixture_file_name(kind: &str, size: &str) -> (r: String)
    ensures
        r@ == kind@ + "-"@ + size@ + ".bin"@,
{
    let mut r = owned(kind);
    push_str(&mut r, "-");
    push_str(&mut r, size);
    push_str(&mut r, ".bin");
    r
}

} // verus!
