use vstd::prelude::*;

verus! {

/// A character that may start a name segment: a lower-case letter, `_` or `-`.
pub open spec fn is_name_head(c: char) -> bool {
    ('a' <= c && c <= 'z') || c == '_' || c == '-'
}

/// A character that may follow inside a name segment.
pub open spec fn is_name_tail(c: char) -> bool {
    is_name_head(c) || ('0' <= c && c <= '9')
}

/// The character after a `.` at `i` exists and may start a segment.
pub open spec fn dot_followed_by_head(s: Seq<char>, i: int) -> bool {
    i + 1 < s.len() && is_name_head(s[i + 1])
}

/// A name is a non-empty list of segments joined by `.`; every segment starts
/// with a lower-case letter, `_` or `-`, and goes on with lower-case letters,
/// digits, `_` or `-`.
pub open spec fn valid_name(s: Seq<char>) -> bool {
    &&& s.len() > 0
    &&& is_name_head(s[0])
    &&& forall|i: int| 0 <= i < s.len() ==> (#[trigger] is_name_tail(s[i]) || s[i] == '.')
    &&& forall|i: int| 0 <= i < s.len() && s[i] == '.' ==> #[trigger] dot_followed_by_head(s, i)
}

/// Why a string is no name.
#[derive(Copy, Clone, Debug, PartialEq, Eq, Structural)]
pub enum NameError {
    Empty,
    InvalidChar { index: usize },
}

/// The validated name of a model, a pipe or a topic.
#[derive(Debug)]
pub struct Name {
    name: String,
}

impl View for Name {
    type V = Seq<char>;

    open spec fn view(&self) -> Seq<char> {
        self.spec_name()
    }
}

impl Name {
    pub closed spec fn spec_name(&self) -> Seq<char> {
        self.name@
    }

    #[verifier::type_invariant]
    closed spec fn inv(&self) -> bool {
        valid_name(self.name@)
    }

    /// Checks `s` and wraps it as a name.
    pub fn parse(s: &str) -> (r: Result<Name, NameError>)
        ensures
            r is Ok <==> valid_name(s@),
            r matches Ok(name) ==> name@ == s@,
            s@.len() == 0 ==> r == Err::<Name, NameError>(NameError::Empty),
    {
        let len = s.unicode_len();
        if len == 0 {
            return Err(NameError::Empty);
        }
        let first = s.get_char(0);
        if !(('a' <= first && first <= 'z') || first == '_' || first == '-') {
            return Err(NameError::InvalidChar { index: 0 });
        }
        let mut i: usize = 0;
        while i < len
            invariant
                len == s@.len(),
                i <= len,
                is_name_head(s@[0]),
                forall|j: int| 0 <= j < i ==> (#[trigger] is_name_tail(s@[j]) || s@[j] == '.'),
                forall|j: int| 0 <= j < i && s@[j] == '.' ==> #[trigger] dot_followed_by_head(s@, j),
            decreases len - i,
        {
            let c = s.get_char(i);
            if c == '.' {
                if i + 1 >= len {
                    proof {
                        assert(!dot_followed_by_head(s@, i as int));
                    }
                    return Err(NameError::InvalidChar { index: i });
                }
                let next = s.get_char(i + 1);
                if !(('a' <= next && next <= 'z') || next == '_' || next == '-') {
                    proof {
                        assert(!dot_followed_by_head(s@, i as int));
                    }
                    return Err(NameError::InvalidChar { index: i + 1 });
                }
            } else if !(('a' <= c && c <= 'z') || c == '_' || c == '-' || ('0' <= c && c <= '9')) {
                proof {
                    assert(!is_name_tail(s@[i as int]));
                }
                return Err(NameError::InvalidChar { index: i });
            }
            i = i + 1;
        }
        Ok(Name { name: s.to_owned() })
    }

    /// The name as a string slice.
    pub fn as_str(&self) -> (s: &str)
        ensures
            s@ == self@,
            valid_name(self@),
    {
        proof {
            use_type_invariant(self);
        }
        self.name.as_str()
    }

    /// A copy of the name.
    pub fn duplicate(&self) -> (n: Name)
        ensures
            n@ == self@,
    {
        proof {
            use_type_invariant(self);
        }
        Name { name: self.name.clone() }
    }
}

/// Copies an optional name.
pub fn duplicate_name_opt(name: &Option<Name>) -> (r: Option<Name>)
    ensures
        r is Some <==> name is Some,
        r matches Some(n) ==> n@ == name->0@,
{
    match name {
        Some(n) => Some(n.duplicate()),
        None => None,
    }
}

} // verus!
