//! Small helpers on strings and vectors.

use vstd::prelude::*;
use vstd::string::StrSliceExecFns;
use vstd::string::StringExecFns;

verus! {

/// The uppercase mapping of a character: what `char::to_uppercase` yields for
/// it, one or more characters.
pub uninterp spec fn uppercase_of(c: char) -> Seq<char>;

/// Calls `char::to_uppercase` and collects what it yields. The contract only
/// gives that result its name.
#[verifier::external_body]
fn char_to_uppercase(c: char) -> (r: String)
    ensures
        r@ == uppercase_of(c),
{
    c.to_uppercase().collect()
}

/// `s` with its first character replaced by that character's uppercase
/// mapping.
pub open spec fn spec_uppercase(s: Seq<char>) -> Seq<char> {
    if s.len() == 0 {
        Seq::empty()
    } else {
        uppercase_of(s[0]) + s.skip(1)
    }
}

/// `rest` with `first` put before it.
pub fn with_first(first: String, rest: &str) -> (r: String)
    ensures
        r@ == first@ + rest@,
{
    let mut r = first;
    r.append(rest);
    r
}

/// `s` with its first character in upper case.
pub fn uppercase(s: &str) -> (r: String)
    ensures
        r@ == spec_uppercase(s@),
{
    let len = s.unicode_len();
    if len == 0 {
        String::new()
    } else {
        let first = char_to_uppercase(s.get_char(0));
        with_first(first, s.substring_char(1, len))
    }
}

/// Whether a call of `f` on each of `items` can return the outcome at the
/// same index of `outs`.
pub open spec fn spec_outcomes<I, O, F: Fn(&I) -> Option<O>>(
    f: F,
    items: Seq<I>,
    outs: Seq<Option<O>>,
) -> bool {
    &&& outs.len() == items.len()
    &&& forall|k: int| 0 <= k < items.len() ==> call_ensures(f, (&items[k],), #[trigger] outs[k])
}

/// Those of the first `n` items whose outcome is `None`, in order.
pub open spec fn spec_kept<I, O>(items: Seq<I>, outs: Seq<Option<O>>, n: nat) -> Seq<I>
    decreases n,
{
    if n == 0 {
        Seq::empty()
    } else {
        let before = spec_kept(items, outs, (n - 1) as nat);
        match outs[n - 1] {
            Some(_) => before,
            None => before.push(items[n - 1]),
        }
    }
}

/// What the first `n` outcomes hold, in order.
pub open spec fn spec_mapped<O>(outs: Seq<Option<O>>, n: nat) -> Seq<O>
    decreases n,
{
    if n == 0 {
        Seq::empty()
    } else {
        let before = spec_mapped(outs, (n - 1) as nat);
        match outs[n - 1] {
            Some(val) => before.push(val),
            None => before,
        }
    }
}

/// Takes out of `input` every item for which `filter_map` returns a value,
/// and returns those values in order. The items for which it returns `None`
/// stay, in order. `filter_map` is called once on every item.
pub fn drain_map<I, O, F: Fn(&I) -> Option<O>>(input: &mut Vec<I>, filter_map: F) -> (r: Vec<O>)
    requires
        forall|k: int|
            0 <= k < old(input)@.len() ==> call_requires(filter_map, (&#[trigger] old(input)@[k],)),
    ensures
        exists|outs: Seq<Option<O>>|
            {
                &&& #[trigger] spec_outcomes(filter_map, old(input)@, outs)
                &&& r@ == spec_mapped(outs, outs.len())
                &&& final(input)@ == spec_kept(old(input)@, outs, outs.len())
            },
{
    let ghost items = input@;
    let ghost mut outs: Seq<Option<O>> = Seq::empty();
    let mut ret: Vec<O> = Vec::new();
    let mut i: usize = 0;
    while i != input.len()
        invariant
            forall|k: int|
                0 <= k < items.len() ==> call_requires(filter_map, (&#[trigger] items[k],)),
            outs.len() <= items.len(),
            forall|k: int|
                0 <= k < outs.len() ==> call_ensures(filter_map, (&items[k],), #[trigger] outs[k]),
            ret@ == spec_mapped(outs, outs.len()),
            i == spec_kept(items, outs, outs.len()).len(),
            input@ == spec_kept(items, outs, outs.len()) + items.skip(outs.len() as int),
        decreases items.len() - outs.len(),
    {
        let ghost done = outs.len();
        let out = filter_map(&input[i]);
        proof {
            let next = outs.push(out);
            lemma_kept_prefix(items, outs, next, done);
            lemma_mapped_prefix(outs, next, done);
            outs = next;
        }
        if let Some(val) = out {
            ret.push(val);
            input.remove(i);
        } else {
            i += 1;
        }
    }
    proof {
        assert(spec_outcomes(filter_map, items, outs));
    }
    ret
}

/// What is kept of the first `n` items depends on the first `n` outcomes
/// only.
proof fn lemma_kept_prefix<I, O>(
    items: Seq<I>,
    outs: Seq<Option<O>>,
    more: Seq<Option<O>>,
    n: nat,
)
    requires
        n <= outs.len() <= more.len(),
        forall|k: int| 0 <= k < outs.len() ==> outs[k] == more[k],
    ensures
        spec_kept(items, more, n) == spec_kept(items, outs, n),
    decreases n,
{
    if n > 0 {
        lemma_kept_prefix(items, outs, more, (n - 1) as nat);
    }
}

/// What the first `n` outcomes hold depends on those outcomes only.
proof fn lemma_mapped_prefix<O>(outs: Seq<Option<O>>, more: Seq<Option<O>>, n: nat)
    requires
        n <= outs.len() <= more.len(),
        forall|k: int| 0 <= k < outs.len() ==> outs[k] == more[k],
    ensures
        spec_mapped(more, n) == spec_mapped(outs, n),
    decreases n,
{
    if n > 0 {
        lemma_mapped_prefix(outs, more, (n - 1) as nat);
    }
}

} // verus!
