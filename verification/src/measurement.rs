//! The two-frequency measurement used for inductance and capacitance:
//! measure F1 (with the first reference), then F2, then show the result
//! until the pair is cleared. The lower frequency is always kept first.
use vstd::prelude::*;

verus! {

/// Where the measurement stands.
#[derive(Clone, Copy, PartialEq, Eq, Structural)]
pub enum Stage {
    /// F1 is missing; the button measures F1.
    NeedFirst,
    /// F1 is known, F2 is missing; the button measures F2.
    NeedSecond,
    /// Both are known; the button clears them.
    Complete,
}

/// What the button asked for in the last frame.
pub enum EClick<M> {
    /// Nothing.
    FNONE,
    /// Measure F1.
    F1,
    /// Measure F2.
    F2,
    /// Both measurements are known (these are their values); show the result.
    END(M, M),
}

pub struct TwoFreq<M> {
    f1: Option<M>,
    f1_error: String,
    f2: Option<M>,
    f2_error: String,
}

pub open spec fn stage_of<M>(first: Option<M>, second: Option<M>) -> Stage {
    match (first, second) {
        (None, _) => Stage::NeedFirst,
        (Some(_), None) => Stage::NeedSecond,
        (Some(_), Some(_)) => Stage::Complete,
    }
}

impl<M: Copy> TwoFreq<M> {
    pub closed spec fn first(&self) -> Option<M> {
        self.f1
    }

    pub closed spec fn second(&self) -> Option<M> {
        self.f2
    }

    /// Why the last attempt at F1 gave no value.
    pub closed spec fn first_error(&self) -> Seq<char> {
        self.f1_error@
    }

    /// Why the last attempt at F2 gave no value.
    pub closed spec fn second_error(&self) -> Seq<char> {
        self.f2_error@
    }

    /// Nothing measured yet.
    pub fn new() -> (t: TwoFreq<M>)
        ensures
            t.first() is None,
            t.second() is None,
            t.first_error() == Seq::<char>::empty(),
            t.second_error() == Seq::<char>::empty(),
    {
        TwoFreq { f1: None, f1_error: String::new(), f2: None, f2_error: String::new() }
    }

    /// Records the outcome of measuring F1: a value, or the reason there is none.
    pub fn f1_set(&mut self, value: Option<M>, error: String)
        ensures
            final(self).first() == value,
            final(self).first_error() == error@,
            final(self).second() == old(self).second(),
            final(self).second_error() == old(self).second_error(),
    {
        self.f1 = value;
        self.f1_error = error;
    }

    /// Records the outcome of measuring F2.
    pub fn f2_set(&mut self, value: Option<M>, error: String)
        ensures
            final(self).second() == value,
            final(self).second_error() == error@,
            final(self).first() == old(self).first(),
            final(self).first_error() == old(self).first_error(),
    {
        self.f2 = value;
        self.f2_error = error;
    }

    pub fn f1(&self) -> (v: Option<M>)
        ensures
            v == self.first(),
    {
        self.f1
    }

    pub fn f2(&self) -> (v: Option<M>)
        ensures
            v == self.second(),
    {
        self.f2
    }

    pub fn f1_error(&self) -> (e: &String)
        ensures
            e@ == self.first_error(),
    {
        &self.f1_error
    }

    pub fn f2_error(&self) -> (e: &String)
        ensures
            e@ == self.second_error(),
    {
        &self.f2_error
    }

    /// Keeps the lower frequency first: when both are known and the caller
    /// found F1 not below F2, the two measurements trade places.
    pub fn order(&mut self, first_not_lower: bool)
        ensures
            old(self).first() is Some && old(self).second() is Some && first_not_lower ==> {
                &&& final(self).first() == old(self).second()
                &&& final(self).second() == old(self).first()
                &&& final(self).first_error() == old(self).second_error()
                &&& final(self).second_error() == old(self).first_error()
            },
            !(old(self).first() is Some && old(self).second() is Some && first_not_lower) ==> {
                &&& final(self).first() == old(self).first()
                &&& final(self).second() == old(self).second()
                &&& final(self).first_error() == old(self).first_error()
                &&& final(self).second_error() == old(self).second_error()
            },
    {
        if self.f1.is_some() && self.f2.is_some() && first_not_lower {
            std::mem::swap(&mut self.f1, &mut self.f2);
            std::mem::swap(&mut self.f1_error, &mut self.f2_error);
        }
    }

    /// Where the measurement stands.
    pub fn stage(&self) -> (s: Stage)
        ensures
            s == stage_of(self.first(), self.second()),
    {
        match (self.f1, self.f2) {
            (None, _) => Stage::NeedFirst,
            (Some(_), None) => Stage::NeedSecond,
            (Some(_), Some(_)) => Stage::Complete,
        }
    }

    /// Acts on the button of the current stage. Measuring is asked for in
    /// the first two stages; once both values are known they are returned,
    /// and a click clears them (the values returned are those before the
    /// clear).
    pub fn click(&mut self, clicked: bool) -> (r: EClick<M>)
        ensures
            match stage_of(old(self).first(), old(self).second()) {
                Stage::NeedFirst => (if clicked {
                    r is F1
                } else {
                    r is FNONE
                }) && *final(self) == *old(self),
                Stage::NeedSecond => (if clicked {
                    r is F2
                } else {
                    r is FNONE
                }) && *final(self) == *old(self),
                Stage::Complete => {
                    &&& r == EClick::END(old(self).first().unwrap(), old(self).second().unwrap())
                    &&& clicked ==> final(self).first() is None && final(self).second() is None
                        && final(self).first_error() == Seq::<char>::empty()
                        && final(self).second_error() == Seq::<char>::empty()
                    &&& !clicked ==> *final(self) == *old(self)
                },
            },
    {
        match (self.f1, self.f2) {
            (None, _) => if clicked {
                EClick::F1
            } else {
                EClick::FNONE
            },
            (Some(_), None) => if clicked {
                EClick::F2
            } else {
                EClick::FNONE
            },
            (Some(m1), Some(m2)) => {
                if clicked {
                    self.f1 = None;
                    self.f1_error = String::new();
                    self.f2 = None;
                    self.f2_error = String::new();
                }
                EClick::END(m1, m2)
            },
        }
    }
}

} // verus!
