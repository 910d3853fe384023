//! Account identifiers and the namespace relations between them.
//!
//! An account identifier is a short lowercase name made of parts separated by
//! dots; each part is alphanumeric with single interior `-` or `_` separators.
//! A sub-account is an account whose name is suffixed by its parent's name.

use vstd::prelude::*;

verus! {

/// Lowercase letter or digit.
pub open spec fn is_alnum_char(c: char) -> bool {
    ('a' as int <= c as int && c as int <= 'z' as int) || ('0' as int <= c as int && c as int
        <= '9' as int)
}

/// One of the three separator characters allowed inside an account name.
pub open spec fn is_separator_char(c: char) -> bool {
    c == '-' || c == '_' || c == '.'
}

/// A well-formed account identifier: between 2 and 64 characters, every
/// character a lowercase letter, digit or separator, and every separator
/// standing strictly between two alphanumeric characters.
pub open spec fn is_valid_account_id(s: Seq<char>) -> bool {
    &&& 2 <= s.len() <= 64
    &&& forall|i: int|
        0 <= i < s.len() ==> is_alnum_char(#[trigger] s[i]) || is_separator_char(s[i])
    &&& forall|i: int|
        0 <= i < s.len() && is_separator_char(#[trigger] s[i]) ==> 0 < i < s.len() - 1
            && is_alnum_char(s[i - 1]) && is_alnum_char(s[i + 1])
}

/// The reserved system account name.
pub open spec fn system_account() -> Seq<char> {
    "system"@
}

/// A top-level account: not the system account, and containing no dot.
pub open spec fn spec_is_top_level(s: Seq<char>) -> bool {
    &&& s != system_account()
    &&& forall|i: int| 0 <= i < s.len() ==> #[trigger] s[i] != '.'
}

/// `sub` is a direct sub-account of `parent`: it reads `<child>.<parent>`
/// where `<child>` is non-empty and contains no dot.
pub open spec fn spec_is_sub_account_of(sub: Seq<char>, parent: Seq<char>) -> bool {
    &&& sub.len() >= parent.len() + 2
    &&& sub.subrange(sub.len() - parent.len(), sub.len() as int) == parent
    &&& sub[sub.len() - parent.len() - 1] == '.'
    &&& forall|i: int| 0 <= i < sub.len() - parent.len() - 1 ==> #[trigger] sub[i] != '.'
}

/// The name after the first dot of `s`, or `s` itself when it has no dot.
pub open spec fn spec_parent_of(s: Seq<char>) -> Seq<char> {
    if exists|i: int| 0 <= i < s.len() && s[i] == '.' {
        let i = choose|i: int|
            0 <= i < s.len() && s[i] == '.' && forall|j: int| 0 <= j < i ==> s[j] != '.';
        s.subrange(i + 1, s.len() as int)
    } else {
        s
    }
}

/// A validated account identifier. A value of this type has always passed the
/// well-formedness predicate `is_valid_account_id`.
#[derive(Debug, PartialEq, Eq, Hash)]
pub struct AccountId {
    id: String,
}

impl Clone for AccountId {
    fn clone(&self) -> (r: Self)
        ensures
            r@ == self@,
    {
        proof {
            use_type_invariant(self);
        }
        AccountId { id: self.id.clone() }
    }
}

impl View for AccountId {
    type V = Seq<char>;

    closed spec fn view(&self) -> Seq<char> {
        self.id@
    }
}

/// Compares `s` with the reserved system account name.
fn str_equals_system(s: &str) -> (r: bool)
    ensures
        r == (s@ == system_account()),
{
    proof {
        reveal_strlit("system");
    }
    let n: usize = s.unicode_len();
    if n != 6 {
        return false;
    }
    let r = s.get_char(0) == 's' && s.get_char(1) == 'y' && s.get_char(2) == 's' && s.get_char(3)
        == 't' && s.get_char(4) == 'e' && s.get_char(5) == 'm';
    proof {
        if r {
            assert(s@ =~= system_account());
        }
    }
    r
}

/// Checks every character of `s` against the account-name rules.
pub fn is_valid_account_id_str(s: &str) -> (r: bool)
    ensures
        r == is_valid_account_id(s@),
{
    let n: usize = s.unicode_len();
    if n < 2 || n > 64 {
        return false;
    }
    let mut i: usize = 0;
    while i < n
        invariant
            2 <= n <= 64,
            n == s@.len(),
            i <= n,
            forall|j: int|
                0 <= j < i ==> is_alnum_char(#[trigger] s@[j]) || is_separator_char(s@[j]),
            forall|j: int|
                0 <= j < i && is_separator_char(#[trigger] s@[j]) ==> 0 < j < n - 1
                    && is_alnum_char(s@[j - 1]) && is_alnum_char(s@[j + 1]),
        decreases n - i,
    {
        let c = s.get_char(i);
        let u = c as u32;
        let alnum = (97 <= u && u <= 122) || (48 <= u && u <= 57);
        if !alnum {
            if c == '-' || c == '_' || c == '.' {
                if i == 0 || i + 1 >= n {
                    return false;
                }
                let p = s.get_char(i - 1) as u32;
                let q = s.get_char(i + 1) as u32;
                if !((97 <= p && p <= 122) || (48 <= p && p <= 57)) {
                    return false;
                }
                if !((97 <= q && q <= 122) || (48 <= q && q <= 57)) {
                    return false;
                }
            } else {
                return false;
            }
        }
        i += 1;
    }
    true
}

impl AccountId {
    #[verifier::type_invariant]
    spec fn inv(self) -> bool {
        is_valid_account_id(self.id@)
    }

    /// Validates `id` and wraps it; rejects every name that fails the
    /// account-name rules.
    pub fn parse(id: String) -> (r: Option<AccountId>)
        ensures
            r is Some <==> is_valid_account_id(id@),
            r is Some ==> r.unwrap()@ == id@,
    {
        if is_valid_account_id_str(id.as_str()) {
            Some(AccountId { id })
        } else {
            None
        }
    }

    pub fn as_str(&self) -> (r: &str)
        ensures
            r@ == self@,
            is_valid_account_id(self@),
    {
        proof {
            use_type_invariant(self);
        }
        self.id.as_str()
    }

    pub fn len(&self) -> (n: usize)
        ensures
            n == self@.len(),
            is_valid_account_id(self@),
    {
        proof {
            use_type_invariant(self);
        }
        self.id.as_str().unicode_len()
    }

    /// True when this account contains no dot and is not the reserved system
    /// account.
    pub fn is_top_level(&self) -> (r: bool)
        ensures
            r == spec_is_top_level(self@),
    {
        let s = self.id.as_str();
        if str_equals_system(s) {
            return false;
        }
        let n: usize = s.unicode_len();
        let mut i: usize = 0;
        while i < n
            invariant
                s@ == self@,
                n == s@.len(),
                i <= n,
                forall|j: int| 0 <= j < i ==> #[trigger] s@[j] != '.',
            decreases n - i,
        {
            if s.get_char(i) == '.' {
                return false;
            }
            i += 1;
        }
        true
    }

    /// True when this account reads `<child>.<parent>` with a dot-free child.
    pub fn is_sub_account_of(&self, parent: &AccountId) -> (r: bool)
        ensures
            r == spec_is_sub_account_of(self@, parent@),
    {
        let s = self.id.as_str();
        let p = parent.id.as_str();
        let n: usize = s.unicode_len();
        let m: usize = p.unicode_len();
        if n <= m || n - m < 2 {
            return false;
        }
        // the suffix must equal the parent
        let mut j: usize = 0;
        while j < m
            invariant
                s@ == self@,
                p@ == parent@,
                n == s@.len(),
                m == p@.len(),
                n >= m + 2,
                j <= m,
                forall|k: int| n - m <= k < n - m + j ==> #[trigger] s@[k] == p@[k - (n - m)],
            decreases m - j,
        {
            if s.get_char(n - m + j) != p.get_char(j) {
                proof {
                    assert(s@.subrange(n - m, n as int)[j as int] != p@[j as int]);
                }
                return false;
            }
            j += 1;
        }
        proof {
            assert(s@.subrange(n - m, n as int) =~= p@);
        }
        // the character before the suffix must be the separating dot
        if s.get_char(n - m - 1) != '.' {
            return false;
        }
        // the child part must be non-empty and dot-free
        let mut i: usize = 0;
        while i < n - m - 1
            invariant
                s@ == self@,
                p@ == parent@,
                n == s@.len(),
                m == p@.len(),
                n >= m + 2,
                i <= n - m - 1,
                forall|k: int| 0 <= k < i ==> #[trigger] s@[k] != '.',
        decreases n - m - 1 - i,
        {
            if s.get_char(i) == '.' {
                return false;
            }
            i += 1;
        }
        true
    }

    /// The account after the first dot, when that suffix is itself a valid
    /// account identifier; `None` when this account has no dot or the suffix
    /// is too short to stand alone.
    pub fn parent_account_id(&self) -> (r: Option<AccountId>)
        ensures
            match r {
                Some(p) => p@ == spec_parent_of(self@) && is_valid_account_id(p@),
                None => self@ == spec_parent_of(self@) || !is_valid_account_id(
                    spec_parent_of(self@),
                ),
            },
    {
        proof {
            use_type_invariant(self);
        }
        let s = self.id.as_str();
        let n: usize = s.unicode_len();
        let mut i: usize = 0;
        while i < n
            invariant
                s@ == self@,
                n == s@.len(),
                i <= n,
                forall|j: int| 0 <= j < i ==> #[trigger] s@[j] != '.',
            decreases n - i,
        {
            if s.get_char(i) == '.' {
                let suffix = s.substring_char(i + 1, n);
                proof {
                    assert(0 <= i < s@.len() && s@[i as int] == '.' && forall|j: int|
                        0 <= j < i ==> s@[j] != '.');
                    let w = choose|w: int|
                        0 <= w < s@.len() && s@[w] == '.' && forall|j: int|
                            0 <= j < w ==> s@[j] != '.';
                    if w < i {
                        assert(s@[w] != '.');
                    }
                    if w > i {
                        assert(s@[i as int] != '.');
                    }
                    assert(w == i);
                }
                if is_valid_account_id_str(suffix) {
                    return Some(AccountId { id: String::from_str(suffix) });
                } else {
                    return None;
                }
            }
            i += 1;
        }
        proof {
            assert(!(exists|j: int| 0 <= j < s@.len() && s@[j] == '.'));
        }
        None
    }
}

} // verus!
