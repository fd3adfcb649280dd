//! A Picard (fixed-point) iteration driver over a discretised profile.
//!
//! One sweep rebuilds the whole profile from the current one: a boundary closure gives the
//! first element, and a step closure gives every later element from the element just built
//! before it, the current element at that place and the interval index.  A convergence
//! closure then judges the freshly built profile against the current one.

use vstd::prelude::*;

verus! {

/// Why a Picard solve gave up.
#[derive(Debug)]
pub enum PicardError {
    DidNotConverge,
}

impl PicardError {
    /// The human-readable description of the error.
    pub fn message(&self) -> (text: &'static str)
        ensures
            text@ == picard_error_text(*self),
    {
        match self {
            PicardError::DidNotConverge => "picard iteration did not converge",
        }
    }
}

/// The description that `PicardError::message` gives.
pub open spec fn picard_error_text(error: PicardError) -> Seq<char> {
    match error {
        PicardError::DidNotConverge => "picard iteration did not converge"@,
    }
}

/// `out` is a value the boundary closure gives when it is shown the profile `current`.
pub open spec fn boundary_gives<T, B: FnMut(&[T]) -> T>(set_boundary: B, current: Seq<T>, out: T) -> bool {
    exists|s: &[T]| s@ == current && #[trigger] call_ensures(set_boundary, (s,), out)
}

/// `verdict` is what the convergence closure answers when shown the freshly swept profile
/// `raw` together with the profile `current` it was swept from.
pub open spec fn judged<T, C: FnMut(&[T], &[T]) -> bool>(converged: C, raw: Seq<T>, current: Seq<T>, verdict: bool) -> bool {
    exists|a: &[T], c: &[T]| a@ == raw && c@ == current && #[trigger] call_ensures(converged, (a, c), verdict)
}

/// `raw` is the profile that one sweep builds from `current`: its first element comes from the
/// boundary closure, and element `i` (for `i >= 1`) is the step closure applied to element
/// `i - 1` of `raw`, element `i - 1` of `current` and the interval index `i - 1`.
pub open spec fn is_sweep<T, B: FnMut(&[T]) -> T, S: FnMut(&T, &T, usize) -> T>(
    set_boundary: B,
    step: S,
    current: Seq<T>,
    raw: Seq<T>,
) -> bool {
    &&& current.len() > 0
    &&& raw.len() == current.len()
    &&& boundary_gives(set_boundary, current, raw[0])
    &&& forall|i: int|
        1 <= i < raw.len() ==> call_ensures(step, (&raw[i - 1], &current[i - 1], (i - 1) as usize), #[trigger] raw[i])
}

/// `next` is `raw` blended element by element with `current` by the relaxation closure.
pub open spec fn is_relaxation<T, R: FnMut(&T, &T) -> T>(relax: R, raw: Seq<T>, current: Seq<T>, next: Seq<T>) -> bool {
    &&& next.len() == raw.len()
    &&& forall|i: int| 0 <= i < raw.len() ==> call_ensures(relax, (&raw[i], &current[i]), #[trigger] next[i])
}

/// One rejected iteration of the plain solve: the sweep from `current` gave `next`, and the
/// convergence closure turned it down, so `next` becomes the current profile.
pub open spec fn rejected_sweep<T, B, S, C>(set_boundary: B, step: S, converged: C, current: Seq<T>, next: Seq<T>) -> bool
    where B: FnMut(&[T]) -> T, S: FnMut(&T, &T, usize) -> T, C: FnMut(&[T], &[T]) -> bool,
{
    is_sweep(set_boundary, step, current, next) && judged(converged, next, current, false)
}

/// The profiles of a plain solve: each one is the rejected sweep of the one before it.
pub open spec fn plain_history<T, B, S, C>(set_boundary: B, step: S, converged: C, profiles: Seq<Seq<T>>) -> bool
    where B: FnMut(&[T]) -> T, S: FnMut(&T, &T, usize) -> T, C: FnMut(&[T], &[T]) -> bool,
{
    &&& profiles.len() >= 1
    &&& forall|k: int| 0 <= k < profiles.len() - 1 ==>
        #[trigger] rejected_sweep(set_boundary, step, converged, profiles[k], profiles[k + 1])
}

/// One rejected iteration of the relaxed solve: the sweep from `current` gave `raw`, the
/// convergence closure turned `raw` down, and the relaxation of `raw` with `current` is `next`.
pub open spec fn rejected_relaxed_sweep<T, B, S, C, R>(
    set_boundary: B,
    step: S,
    converged: C,
    relax: R,
    current: Seq<T>,
    raw: Seq<T>,
    next: Seq<T>,
) -> bool
    where B: FnMut(&[T]) -> T, S: FnMut(&T, &T, usize) -> T, C: FnMut(&[T], &[T]) -> bool, R: FnMut(&T, &T) -> T,
{
    &&& is_sweep(set_boundary, step, current, raw)
    &&& judged(converged, raw, current, false)
    &&& is_relaxation(relax, raw, current, next)
}

/// The profiles and raw sweeps of a relaxed solve: the sweep of `profiles[k]` is `raws[k]`, it
/// was turned down, and its relaxation is `profiles[k + 1]`.
pub open spec fn relaxed_history<T, B, S, C, R>(
    set_boundary: B,
    step: S,
    converged: C,
    relax: R,
    profiles: Seq<Seq<T>>,
    raws: Seq<Seq<T>>,
) -> bool
    where B: FnMut(&[T]) -> T, S: FnMut(&T, &T, usize) -> T, C: FnMut(&[T], &[T]) -> bool, R: FnMut(&T, &T) -> T,
{
    &&& profiles.len() == raws.len() + 1
    &&& forall|k: int| 0 <= k < raws.len() ==>
        #[trigger] rejected_relaxed_sweep(set_boundary, step, converged, relax, profiles[k], raws[k], profiles[k + 1])
}

/// A relaxed solve whose relaxation keeps the swept value is a plain solve: its history of
/// current profiles is a plain history.
pub proof fn lemma_keeping_relaxation_is_plain<T, B, S, C, R>(
    set_boundary: B,
    step: S,
    converged: C,
    relax: R,
    profiles: Seq<Seq<T>>,
    raws: Seq<Seq<T>>,
)
    where B: FnMut(&[T]) -> T, S: FnMut(&T, &T, usize) -> T, C: FnMut(&[T], &[T]) -> bool, R: FnMut(&T, &T) -> T,
    requires
        relaxed_history(set_boundary, step, converged, relax, profiles, raws),
        forall|raw: &T, current: &T, blended: T| call_ensures(relax, (raw, current), blended) ==> blended == *raw,
    ensures
        plain_history(set_boundary, step, converged, profiles),
{
    assert forall|k: int| 0 <= k < profiles.len() - 1 implies
        #[trigger] rejected_sweep(set_boundary, step, converged, profiles[k], profiles[k + 1]) by {
        assert(rejected_relaxed_sweep(set_boundary, step, converged, relax, profiles[k], raws[k], profiles[k + 1]));
        let next = profiles[k + 1];
        let raw = raws[k];
        assert forall|i: int| 0 <= i < raw.len() implies next[i] == raw[i] by {
            assert(call_ensures(relax, (&raw[i], &profiles[k][i]), next[i]));
        }
        assert(next =~= raw);
    }
}

/// The state of a Picard solve: the current profile and a work buffer of the same length.
pub struct PicardSolver<T> {
    current: Vec<T>,
    new: Vec<T>,
}

impl<T> View for PicardSolver<T> {
    type V = Seq<T>;

    /// The current profile.
    closed spec fn view(&self) -> Seq<T> {
        self.current@
    }
}

impl<T> PicardSolver<T> {
    /// The profile is never empty and the work buffer has its length.
    pub closed spec fn wf(&self) -> bool {
        &&& self.current@.len() > 0
        &&& self.new@.len() == self.current@.len()
    }
}

impl<T: Clone> PicardSolver<T> {
    /// A solver whose initial profile is `len` copies of `initial`.
    pub fn filled(len: usize, initial: T) -> (solver: Self)
        requires
            len > 0,
        ensures
            solver.wf(),
            solver@.len() == len,
            forall|i: int| 0 <= i < len ==> cloned(initial, #[trigger] solver@[i]),
    {
        Self::from_initial(vec![initial; len])
    }

    /// A solver that starts from the given profile.
    pub fn from_initial(initial: Vec<T>) -> (solver: Self)
        requires
            initial@.len() > 0,
        ensures
            solver.wf(),
            solver@ == initial@,
    {
        let new = initial.clone();
        PicardSolver { new, current: initial }
    }
}

impl<T> PicardSolver<T> {
    /// The current profile.
    pub fn profile(&self) -> (profile: &[T])
        ensures
            profile@ == self@,
    {
        self.current.as_slice()
    }

    /// Sweeps the profile again and again, at most `max_iterations` times, until the
    /// convergence closure accepts a sweep; an accepted sweep becomes the current profile, and
    /// so does every rejected one.
    #[verifier::loop_isolation(false)]
    pub fn solve<B, S, C>(
        &mut self,
        max_iterations: usize,
        mut set_boundary: B,
        mut step: S,
        mut converged: C,
    ) -> (result: Result<&[T], PicardError>)
        where B: FnMut(&[T]) -> T, S: FnMut(&T, &T, usize) -> T, C: FnMut(&[T], &[T]) -> bool,
        requires
            old(self).wf(),
            forall|s: &[T]| call_requires(set_boundary, (s,)),
            forall|a: &T, b: &T, i: usize| call_requires(step, (a, b, i)),
            forall|a: &[T], c: &[T]| call_requires(converged, (a, c)),
        ensures
            final(self).wf(),
            final(self)@.len() == old(self)@.len(),
            result is Ok ==> result->Ok_0@ == final(self)@,
            max_iterations == 0 ==> result is Err && final(self)@ == old(self)@,
            exists|profiles: Seq<Seq<T>>| #![trigger plain_history(set_boundary, step, converged, profiles)] {
                &&& profiles[0] == old(self)@
                &&& plain_history(set_boundary, step, converged, profiles)
                &&& result is Ok ==> {
                    &&& profiles.len() <= max_iterations
                    &&& is_sweep(set_boundary, step, profiles.last(), final(self)@)
                    &&& judged(converged, final(self)@, profiles.last(), true)
                }
                &&& result is Err ==> {
                    &&& profiles.len() == max_iterations + 1
                    &&& final(self)@ == profiles.last()
                }
            },
    {
        let ghost b0 = set_boundary;
        let ghost s0 = step;
        let ghost c0 = converged;
        let ghost mut profiles: Seq<Seq<T>> = seq![self.current@];
        let mut k: usize = 0;
        while k < max_iterations
            invariant
                self.wf(),
                self@.len() == old(self)@.len(),
                set_boundary == b0,
                step == s0,
                converged == c0,
                forall|s: &[T]| call_requires(b0, (s,)),
                forall|a: &T, b: &T, i: usize| call_requires(s0, (a, b, i)),
                forall|a: &[T], c: &[T]| call_requires(c0, (a, c)),
                0 <= k <= max_iterations,
                profiles.len() == k + 1,
                profiles[0] == old(self)@,
                plain_history(b0, s0, c0, profiles),
                self@ == profiles.last(),
            decreases max_iterations - k,
        {
            self.sweep(&mut set_boundary, &mut step);
            let accepted = converged(self.new.as_slice(), self.current.as_slice());
            core::mem::swap(&mut self.current, &mut self.new);
            if accepted {
                return Ok(self.current.as_slice());
            }
            let ghost prev = profiles;
            proof {
                profiles = profiles.push(self.current@);
                assert(rejected_sweep(b0, s0, c0, prev.last(), self@));
                assert forall|j: int| 0 <= j < profiles.len() - 1 implies
                    #[trigger] rejected_sweep(b0, s0, c0, profiles[j], profiles[j + 1]) by {
                    if j < prev.len() - 1 {
                        assert(profiles[j] == prev[j] && profiles[j + 1] == prev[j + 1]);
                    }
                }
            }
            k += 1;
        }
        Err(PicardError::DidNotConverge)
    }

    /// Like `solve`, but a rejected sweep is blended element by element with the profile it
    /// came from by the relaxation closure (which is given the swept element first and the
    /// current one second), and the blend becomes the current profile.  An accepted sweep
    /// becomes the current profile as it is.
    #[verifier::loop_isolation(false)]
    pub fn solve_relaxed<B, S, C, R>(
        &mut self,
        max_iterations: usize,
        mut set_boundary: B,
        mut step: S,
        mut converged: C,
        mut relax: R,
    ) -> (result: Result<&[T], PicardError>)
        where
            B: FnMut(&[T]) -> T,
            S: FnMut(&T, &T, usize) -> T,
            C: FnMut(&[T], &[T]) -> bool,
            R: FnMut(&T, &T) -> T,
        requires
            old(self).wf(),
            forall|s: &[T]| call_requires(set_boundary, (s,)),
            forall|a: &T, b: &T, i: usize| call_requires(step, (a, b, i)),
            forall|a: &[T], c: &[T]| call_requires(converged, (a, c)),
            forall|a: &T, c: &T| call_requires(relax, (a, c)),
        ensures
            final(self).wf(),
            final(self)@.len() == old(self)@.len(),
            result is Ok ==> result->Ok_0@ == final(self)@,
            max_iterations == 0 ==> result is Err && final(self)@ == old(self)@,
            exists|profiles: Seq<Seq<T>>, raws: Seq<Seq<T>>|
                #![trigger relaxed_history(set_boundary, step, converged, relax, profiles, raws)] {
                &&& profiles[0] == old(self)@
                &&& relaxed_history(set_boundary, step, converged, relax, profiles, raws)
                &&& result is Ok ==> {
                    &&& profiles.len() <= max_iterations
                    &&& is_sweep(set_boundary, step, profiles.last(), final(self)@)
                    &&& judged(converged, final(self)@, profiles.last(), true)
                }
                &&& result is Err ==> {
                    &&& profiles.len() == max_iterations + 1
                    &&& final(self)@ == profiles.last()
                }
            },
    {
        let ghost b0 = set_boundary;
        let ghost s0 = step;
        let ghost c0 = converged;
        let ghost r0 = relax;
        let ghost mut profiles: Seq<Seq<T>> = seq![self.current@];
        let ghost mut raws: Seq<Seq<T>> = Seq::empty();
        let mut k: usize = 0;
        while k < max_iterations
            invariant
                set_boundary == b0,
                step == s0,
                converged == c0,
                relax == r0,
                self.wf(),
                self@.len() == old(self)@.len(),
                0 <= k <= max_iterations,
                profiles.len() == k + 1,
                profiles[0] == old(self)@,
                relaxed_history(set_boundary, step, converged, relax, profiles, raws),
                self@ == profiles.last(),
            decreases max_iterations - k,
        {
            self.sweep(&mut set_boundary, &mut step);
            let accepted = converged(self.new.as_slice(), self.current.as_slice());
            if accepted {
                core::mem::swap(&mut self.current, &mut self.new);
                return Ok(self.current.as_slice());
            }
            let ghost raw = self.new@;
            self.relax_all(&mut relax);
            core::mem::swap(&mut self.current, &mut self.new);
            let ghost prev = profiles;
            let ghost prev_raws = raws;
            proof {
                profiles = profiles.push(self.current@);
                raws = raws.push(raw);
                assert(rejected_relaxed_sweep(set_boundary, step, converged, relax, prev.last(), raw, self@));
                assert forall|j: int| 0 <= j < raws.len() implies
                    #[trigger] rejected_relaxed_sweep(set_boundary, step, converged, relax, profiles[j], raws[j], profiles[j + 1]) by {
                    if j < prev_raws.len() {
                        assert(profiles[j] == prev[j] && profiles[j + 1] == prev[j + 1] && raws[j] == prev_raws[j]);
                    }
                }
            }
            k += 1;
        }
        Err(PicardError::DidNotConverge)
    }

    /// Blends the work buffer, element by element, with the current profile.
    fn relax_all<R>(&mut self, relax: &mut R)
        where R: FnMut(&T, &T) -> T,
        requires
            old(self).wf(),
            forall|a: &T, c: &T| call_requires(*old(relax), (a, c)),
        ensures
            final(self).wf(),
            *final(relax) == *old(relax),
            final(self).current@ == old(self).current@,
            is_relaxation(*old(relax), old(self).new@, old(self).current@, final(self).new@),
    {
        let n = self.new.len();
        let mut i: usize = 0;
        while i < n
            invariant
                self.wf(),
                n == self.new@.len(),
                0 <= i <= n,
                self.current@ == old(self).current@,
                *relax == *old(relax),
                forall|a: &T, c: &T| call_requires(*old(relax), (a, c)),
                forall|j: int| i <= j < n ==> self.new@[j] == old(self).new@[j],
                forall|j: int| 0 <= j < i ==>
                    call_ensures(*old(relax), (&old(self).new@[j], &old(self).current@[j]), #[trigger] self.new@[j]),
            decreases n - i,
        {
            let blended = relax(&self.new[i], &self.current[i]);
            self.new[i] = blended;
            i += 1;
        }
    }

    /// Rebuilds the work buffer as one sweep of the current profile.
    fn sweep<B, S>(&mut self, set_boundary: &mut B, step: &mut S)
        where B: FnMut(&[T]) -> T, S: FnMut(&T, &T, usize) -> T,
        requires
            old(self).wf(),
            forall|s: &[T]| call_requires(*old(set_boundary), (s,)),
            forall|a: &T, b: &T, i: usize| call_requires(*old(step), (a, b, i)),
        ensures
            final(self).wf(),
            final(self).current@ == old(self).current@,
            *final(set_boundary) == *old(set_boundary),
            *final(step) == *old(step),
            is_sweep(*old(set_boundary), *old(step), old(self).current@, final(self).new@),
    {
        let first = set_boundary(self.current.as_slice());
        self.new[0] = first;
        let n = self.new.len();
        let mut i: usize = 0;
        while i + 1 < n
            invariant
                self.wf(),
                n == self.new@.len(),
                0 <= i < n,
                self.current@ == old(self).current@,
                *set_boundary == *old(set_boundary),
                *step == *old(step),
                forall|a: &T, b: &T, j: usize| call_requires(*old(step), (a, b, j)),
                boundary_gives(*old(set_boundary), old(self).current@, self.new@[0]),
                forall|j: int|
                    1 <= j <= i ==> call_ensures(*old(step), (&self.new@[j - 1], &old(self).current@[j - 1], (j - 1) as usize), #[trigger] self.new@[j]),
            decreases n - i,
        {
            let next = step(&self.new[i], &self.current[i], i);
            self.new[i + 1] = next;
            i += 1;
        }
    }
}

} // verus!
