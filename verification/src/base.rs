//! The items that every generated builder refers to.

use vstd::prelude::*;

verus! {

/// The marker that occupies a builder slot until a value is supplied.
pub struct Unset;

/// A value that can stand where an optional `T` is stored: either a bare `T`
/// or an `Option<T>`.
pub trait AsOption<T>: Sized {
    /// The optional that `self` normalises to.
    spec fn as_option_spec(self) -> Option<T>;

    fn as_option(self) -> (r: Option<T>)
        ensures
            r == self.as_option_spec(),
    ;
}

impl<T> AsOption<T> for Option<T> {
    open spec fn as_option_spec(self) -> Option<T> {
        self
    }

    fn as_option(self) -> (r: Option<T>) {
        self
    }
}

impl<T> AsOption<T> for T {
    open spec fn as_option_spec(self) -> Option<T> {
        Some(self)
    }

    fn as_option(self) -> (r: Option<T>) {
        Some(self)
    }
}

/// A bare value and the same value wrapped in `Some` normalise to the same
/// optional, so a setter cannot tell the two call forms apart.
pub proof fn lemma_bare_and_wrapped_agree<T>(value: T)
    ensures
        <T as AsOption<T>>::as_option_spec(value) == <Option<T> as AsOption<T>>::as_option_spec(
            Some(value),
        ),
        <T as AsOption<T>>::as_option_spec(value) == Some(value),
{
}

/// A complete builder that can be taken apart into the arguments of its
/// callable.
pub trait Deconstruct<Args>: Sized {
    /// The arguments that `self` holds.
    spec fn deconstruct_spec(self) -> Args;

    fn deconstruct(self) -> (r: Args)
        ensures
            r == self.deconstruct_spec(),
    ;
}

/// A callable that takes its arguments as one tuple.
pub trait Call<Args, Res> {
    /// Whether `self` may be called on `args`.
    spec fn apply_requires(&self, args: Args) -> bool;

    /// Whether `self` can return `res` when it is called on `args`.
    spec fn apply_ensures(&self, args: Args, res: Res) -> bool;

    fn apply(&self, args: Args) -> (r: Res)
        requires
            self.apply_requires(args),
        ensures
            self.apply_ensures(args, r),
    ;
}

impl<A, R, FN: Fn(A) -> R> Call<(A,), R> for FN {
    open spec fn apply_requires(&self, args: (A,)) -> bool {
        call_requires(*self, args)
    }

    open spec fn apply_ensures(&self, args: (A,), res: R) -> bool {
        call_ensures(*self, args, res)
    }

    fn apply(&self, args: (A,)) -> (r: R) {
        self(args.0)
    }
}

impl<A, B, R, FN: Fn(A, B) -> R> Call<(A, B), R> for FN {
    open spec fn apply_requires(&self, args: (A, B)) -> bool {
        call_requires(*self, args)
    }

    open spec fn apply_ensures(&self, args: (A, B), res: R) -> bool {
        call_ensures(*self, args, res)
    }

    fn apply(&self, args: (A, B)) -> (r: R) {
        self(args.0, args.1)
    }
}

impl<A, B, C, R, FN: Fn(A, B, C) -> R> Call<(A, B, C), R> for FN {
    open spec fn apply_requires(&self, args: (A, B, C)) -> bool {
        call_requires(*self, args)
    }

    open spec fn apply_ensures(&self, args: (A, B, C), res: R) -> bool {
        call_ensures(*self, args, res)
    }

    fn apply(&self, args: (A, B, C)) -> (r: R) {
        self(args.0, args.1, args.2)
    }
}

impl<A, B, C, D, R, FN: Fn(A, B, C, D) -> R> Call<(A, B, C, D), R> for FN {
    open spec fn apply_requires(&self, args: (A, B, C, D)) -> bool {
        call_requires(*self, args)
    }

    open spec fn apply_ensures(&self, args: (A, B, C, D), res: R) -> bool {
        call_ensures(*self, args, res)
    }

    fn apply(&self, args: (A, B, C, D)) -> (r: R) {
        self(args.0, args.1, args.2, args.3)
    }
}

impl<A, B, C, D, E, R, FN: Fn(A, B, C, D, E) -> R> Call<(A, B, C, D, E), R> for FN {
    open spec fn apply_requires(&self, args: (A, B, C, D, E)) -> bool {
        call_requires(*self, args)
    }

    open spec fn apply_ensures(&self, args: (A, B, C, D, E), res: R) -> bool {
        call_ensures(*self, args, res)
    }

    fn apply(&self, args: (A, B, C, D, E)) -> (r: R) {
        self(args.0, args.1, args.2, args.3, args.4)
    }
}

impl<A, B, C, D, E, F, R, FN: Fn(A, B, C, D, E, F) -> R> Call<(A, B, C, D, E, F), R> for FN {
    open spec fn apply_requires(&self, args: (A, B, C, D, E, F)) -> bool {
        call_requires(*self, args)
    }

    open spec fn apply_ensures(&self, args: (A, B, C, D, E, F), res: R) -> bool {
        call_ensures(*self, args, res)
    }

    fn apply(&self, args: (A, B, C, D, E, F)) -> (r: R) {
        self(args.0, args.1, args.2, args.3, args.4, args.5)
    }
}

impl<A, B, C, D, E, F, G, R, FN> Call<(A, B, C, D, E, F, G), R> for FN where
    FN: Fn(A, B, C, D, E, F, G) -> R,
{
    open spec fn apply_requires(&self, args: (A, B, C, D, E, F, G)) -> bool {
        call_requires(*self, args)
    }

    open spec fn apply_ensures(&self, args: (A, B, C, D, E, F, G), res: R) -> bool {
        call_ensures(*self, args, res)
    }

    fn apply(&self, args: (A, B, C, D, E, F, G)) -> (r: R) {
        self(args.0, args.1, args.2, args.3, args.4, args.5, args.6)
    }
}

impl<A, B, C, D, E, F, G, H, R, FN> Call<(A, B, C, D, E, F, G, H), R> for FN where
    FN: Fn(A, B, C, D, E, F, G, H) -> R,
{
    open spec fn apply_requires(&self, args: (A, B, C, D, E, F, G, H)) -> bool {
        call_requires(*self, args)
    }

    open spec fn apply_ensures(&self, args: (A, B, C, D, E, F, G, H), res: R) -> bool {
        call_ensures(*self, args, res)
    }

    fn apply(&self, args: (A, B, C, D, E, F, G, H)) -> (r: R) {
        self(args.0, args.1, args.2, args.3, args.4, args.5, args.6, args.7)
    }
}

impl<A, B, C, D, E, F, G, H, I, R, FN> Call<(A, B, C, D, E, F, G, H, I), R> for FN where
    FN: Fn(A, B, C, D, E, F, G, H, I) -> R,
{
    open spec fn apply_requires(&self, args: (A, B, C, D, E, F, G, H, I)) -> bool {
        call_requires(*self, args)
    }

    open spec fn apply_ensures(&self, args: (A, B, C, D, E, F, G, H, I), res: R) -> bool {
        call_ensures(*self, args, res)
    }

    fn apply(&self, args: (A, B, C, D, E, F, G, H, I)) -> (r: R) {
        self(args.0, args.1, args.2, args.3, args.4, args.5, args.6, args.7, args.8)
    }
}

/// Applying a callable to a tuple of one is calling it on what the tuple
/// holds: with the same precondition and the same results.
pub proof fn lemma_apply1<A, R, FN: Fn(A) -> R>(f: FN, args: (A,))
    ensures
        f.apply_requires(args) == call_requires(f, args),
        forall|r: R| #[trigger] f.apply_ensures(args, r) == call_ensures(f, args, r),
{
}

/// Applying a callable to a tuple of two is calling it on what the tuple
/// holds: with the same precondition and the same results.
pub proof fn lemma_apply2<A, B, R, FN: Fn(A, B) -> R>(f: FN, args: (A, B))
    ensures
        f.apply_requires(args) == call_requires(f, args),
        forall|r: R| #[trigger] f.apply_ensures(args, r) == call_ensures(f, args, r),
{
}

/// Applying a callable to a tuple of three is calling it on what the tuple
/// holds: with the same precondition and the same results.
pub proof fn lemma_apply3<A, B, C, R, FN: Fn(A, B, C) -> R>(f: FN, args: (A, B, C))
    ensures
        f.apply_requires(args) == call_requires(f, args),
        forall|r: R| #[trigger] f.apply_ensures(args, r) == call_ensures(f, args, r),
{
}

/// Applying a callable to a tuple of four is calling it on what the tuple
/// holds: with the same precondition and the same results.
pub proof fn lemma_apply4<A, B, C, D, R, FN: Fn(A, B, C, D) -> R>(f: FN, args: (A, B, C, D))
    ensures
        f.apply_requires(args) == call_requires(f, args),
        forall|r: R| #[trigger] f.apply_ensures(args, r) == call_ensures(f, args, r),
{
}

/// Applying a callable to a tuple of five is calling it on what the tuple
/// holds: with the same precondition and the same results.
pub proof fn lemma_apply5<A, B, C, D, E, R, FN: Fn(A, B, C, D, E) -> R>(
    f: FN,
    args: (A, B, C, D, E),
)
    ensures
        f.apply_requires(args) == call_requires(f, args),
        forall|r: R| #[trigger] f.apply_ensures(args, r) == call_ensures(f, args, r),
{
}

/// Applying a callable to a tuple of six is calling it on what the tuple
/// holds: with the same precondition and the same results.
pub proof fn lemma_apply6<A, B, C, D, E, F, R, FN: Fn(A, B, C, D, E, F) -> R>(
    f: FN,
    args: (A, B, C, D, E, F),
)
    ensures
        f.apply_requires(args) == call_requires(f, args),
        forall|r: R| #[trigger] f.apply_ensures(args, r) == call_ensures(f, args, r),
{
}

/// Applying a callable to a tuple of seven is calling it on what the tuple
/// holds: with the same precondition and the same results.
pub proof fn lemma_apply7<A, B, C, D, E, F, G, R, FN: Fn(A, B, C, D, E, F, G) -> R>(
    f: FN,
    args: (A, B, C, D, E, F, G),
)
    ensures
        f.apply_requires(args) == call_requires(f, args),
        forall|r: R| #[trigger] f.apply_ensures(args, r) == call_ensures(f, args, r),
{
}

/// Applying a callable to a tuple of eight is calling it on what the tuple
/// holds: with the same precondition and the same results.
pub proof fn lemma_apply8<A, B, C, D, E, F, G, H, R, FN: Fn(A, B, C, D, E, F, G, H) -> R>(
    f: FN,
    args: (A, B, C, D, E, F, G, H),
)
    ensures
        f.apply_requires(args) == call_requires(f, args),
        forall|r: R| #[trigger] f.apply_ensures(args, r) == call_ensures(f, args, r),
{
}

/// Applying a callable to a tuple of nine is calling it on what the tuple
/// holds: with the same precondition and the same results.
pub proof fn lemma_apply9<A, B, C, D, E, F, G, H, I, R, FN: Fn(A, B, C, D, E, F, G, H, I) -> R>(
    f: FN,
    args: (A, B, C, D, E, F, G, H, I),
)
    ensures
        f.apply_requires(args) == call_requires(f, args),
        forall|r: R| #[trigger] f.apply_ensures(args, r) == call_ensures(f, args, r),
{
}

} // verus!
