use vstd::prelude::*;

verus! {

/// The `aud` claim of a token: one audience, or a list whose entries should
/// all be strings (`None` marks an entry that is not), or something else.
pub enum Audience {
    Single(String),
    Many(Vec<Option<String>>),
    Malformed,
}

/// Every entry of the list is a string.
pub open spec fn all_strings(v: Seq<Option<String>>) -> bool {
    forall|i: int| 0 <= i < v.len() ==> (#[trigger] v[i]) is Some
}

/// Some entry of the list is the string `expected`.
pub open spec fn lists(v: Seq<Option<String>>, expected: Seq<char>) -> bool {
    exists|i: int| 0 <= i < v.len() && (#[trigger] v[i]) is Some && v[i]->Some_0@ == expected
}

/// A token is for this service when its audience is `expected`, or is a list
/// of strings that holds `expected`.
pub open spec fn accepts(expected: Seq<char>, aud: Audience) -> bool {
    match aud {
        Audience::Single(s) => s@ == expected,
        Audience::Many(v) => all_strings(v@) && lists(v@, expected),
        Audience::Malformed => false,
    }
}

pub fn audience_accepted(expected: &String, aud: &Audience) -> (r: bool)
    ensures
        r == accepts(expected@, *aud),
{
    match aud {
        Audience::Single(s) => *s == *expected,
        Audience::Many(v) => {
            let mut found = false;
            let mut i: usize = 0;
            while i < v.len()
                invariant
                    *aud == Audience::Many(*v),
                    i <= v@.len(),
                    forall|k: int| 0 <= k < i ==> (#[trigger] v@[k]) is Some,
                    found <==> exists|k: int|
                        0 <= k < i && (#[trigger] v@[k]) is Some && v@[k]->Some_0@ == expected@,
                decreases v@.len() - i,
            {
                match &v[i] {
                    Some(s) => {
                        if *s == *expected {
                            found = true;
                        }
                    },
                    None => {
                        assert(!(v@[i as int] is Some));
                        return false;
                    },
                }
                i = i + 1;
            }
            found
        },
        Audience::Malformed => false,
    }
}

} // verus!
