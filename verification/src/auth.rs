//! What the host has confirmed about who is calling.

use vstd::prelude::*;
use crate::identity::Identity;

verus! {

/// The identities that the current invocation is authorized to act as.
///
/// The host proves control of an identity; the caller of an entry point
/// records the proved identities here, and the entry point asks this record
/// before it looks at any state.
#[derive(Clone, Debug)]
pub struct Authorization {
    subjects: Vec<Identity>,
}

spec fn texts(subjects: Seq<Identity>) -> Set<Seq<char>> {
    Set::new(|text: Seq<char>| exists|i: int| 0 <= i < subjects.len() && #[trigger] subjects[i]@ == text)
}

impl View for Authorization {
    type V = Set<Seq<char>>;

    closed spec fn view(&self) -> Set<Seq<char>> {
        texts(self.subjects@)
    }
}

impl Authorization {
    /// The invocation is authorized to act as nobody.
    pub fn none() -> (auth: Authorization)
        ensures
            auth@ == Set::<Seq<char>>::empty(),
    {
        let auth = Authorization { subjects: Vec::new() };
        assert(auth@ =~= Set::<Seq<char>>::empty());
        auth
    }

    /// The invocation is authorized to act as `subject` and nobody else.
    pub fn of(subject: Identity) -> (auth: Authorization)
        ensures
            auth@ == Set::<Seq<char>>::empty().insert(subject@),
    {
        let mut auth = Authorization::none();
        auth.grant(subject);
        auth
    }

    /// Records that the host has confirmed `subject` too.
    pub fn grant(&mut self, subject: Identity)
        ensures
            final(self)@ == old(self)@.insert(subject@),
    {
        let ghost before = self.subjects@;
        self.subjects.push(subject);
        proof {
            let after = self.subjects@;
            assert forall|text: Seq<char>| texts(after).contains(text) implies texts(before).insert(
                subject@,
            ).contains(text) by {
                let i = choose|i: int| 0 <= i < after.len() && #[trigger] after[i]@ == text;
                if i < before.len() {
                    assert(before[i]@ == text);
                }
            }
            assert forall|text: Seq<char>| texts(before).insert(subject@).contains(
                text,
            ) implies texts(after).contains(text) by {
                if text == subject@ {
                    assert(after[before.len() as int]@ == text);
                } else {
                    let i = choose|i: int| 0 <= i < before.len() && #[trigger] before[i]@ == text;
                    assert(after[i]@ == text);
                }
            }
            assert(texts(after) =~= texts(before).insert(subject@));
        }
    }

    /// Whether the invocation is authorized to act as `who`.
    pub fn permits(&self, who: &Identity) -> (r: bool)
        ensures
            r == self@.contains(who@),
    {
        let mut i: usize = 0;
        while i < self.subjects.len()
            invariant
                i <= self.subjects@.len(),
                forall|j: int| 0 <= j < i ==> self.subjects@[j]@ != who@,
            decreases self.subjects@.len() - i,
        {
            if self.subjects[i].same(who) {
                return true;
            }
            i += 1;
        }
        false
    }
}

} // verus!
