//! The accelerator grammar: a keyboard shortcut string is a (possibly empty)
//! run of modifier tokens, each followed by `'+'`, ending in a key token.
//! Modifiers are drawn from the platform-neutral set (`CmdOrCtrl`, `Cmd`,
//! `Ctrl`, `Shift`, `Alt`, `Option`, `Super`); a key token is a single
//! character or one of a small set of named keys.

use vstd::prelude::*;
use vstd::string::StrSliceExecFns;

verus! {

/// The modifier tokens the grammar accepts.
pub open spec fn is_modifier(tok: Seq<char>) -> bool {
    ||| tok == "CmdOrCtrl"@
    ||| tok == "Cmd"@
    ||| tok == "Ctrl"@
    ||| tok == "Shift"@
    ||| tok == "Alt"@
    ||| tok == "Option"@
    ||| tok == "Super"@
}

/// The named key tokens the grammar accepts.
pub open spec fn is_named_key(tok: Seq<char>) -> bool {
    ||| tok == "Space"@
    ||| tok == "Tab"@
    ||| tok == "Enter"@
    ||| tok == "Escape"@
    ||| tok == "Backspace"@
    ||| tok == "Delete"@
    ||| tok == "Up"@
    ||| tok == "Down"@
    ||| tok == "Left"@
    ||| tok == "Right"@
}

/// A key token: any single character, or a named key.
pub open spec fn is_key(tok: Seq<char>) -> bool {
    tok.len() == 1 || is_named_key(tok)
}

/// Index of the first `'+'` in `s`, or `s.len()` if `s` has none.
pub open spec fn first_plus(s: Seq<char>) -> int
    decreases s.len(),
{
    if s.len() == 0 {
        0
    } else if s[0] == '+' {
        0
    } else {
        1 + first_plus(s.drop_first())
    }
}

/// A well-formed accelerator: a key token, or a modifier token, `'+'`, and a
/// well-formed accelerator after it. The token before the first `'+'` must be
/// the modifier, since no modifier contains `'+'`.
pub open spec fn valid_accelerator(s: Seq<char>) -> bool
    decreases s.len(),
{
    if is_key(s) {
        true
    } else {
        let i = first_plus(s);
        &&& 0 < i
        &&& i + 1 < s.len()
        &&& is_modifier(s.subrange(0, i))
        &&& valid_accelerator(s.subrange(i + 1, s.len() as int))
    }
}

pub proof fn lemma_first_plus_bounds(s: Seq<char>)
    ensures
        0 <= first_plus(s) <= s.len(),
        first_plus(s) < s.len() ==> s[first_plus(s)] == '+',
        forall|j: int| 0 <= j < first_plus(s) ==> s[j] != '+',
    decreases s.len(),
{
    if s.len() > 0 && s[0] != '+' {
        let t = s.drop_first();
        lemma_first_plus_bounds(t);
        assert(forall|j: int| 1 <= j < first_plus(s) ==> s[j] == t[j - 1]);
    }
}

/// `first_plus` is pinned by its characterization: if no `'+'` stands before
/// `i` and either `i` is the length or `s[i]` is `'+'`, then `first_plus(s) == i`.
pub proof fn lemma_first_plus_is(s: Seq<char>, i: int)
    requires
        0 <= i <= s.len(),
        forall|j: int| 0 <= j < i ==> s[j] != '+',
        i < s.len() ==> s[i] == '+',
        i == s.len() ==> (forall|j: int| 0 <= j < s.len() ==> s[j] != '+'),
    ensures
        first_plus(s) == i,
    decreases s.len(),
{
    if s.len() == 0 {
    } else if s[0] == '+' {
    } else {
        assert(i >= 1);
        let t = s.drop_first();
        assert(forall|j: int| 0 <= j < i - 1 ==> t[j] != '+');
        lemma_first_plus_is(t, i - 1);
    }
}

/// A string whose length no key token has is no key token.
pub proof fn lemma_not_key(s: Seq<char>)
    requires
        s.len() != 1,
        s.len() != 2,
        s.len() != 3,
        s.len() != 4,
        s.len() != 5,
        s.len() != 6,
        s.len() != 9,
    ensures
        !is_key(s),
{
    reveal_strlit("Space");
    reveal_strlit("Tab");
    reveal_strlit("Enter");
    reveal_strlit("Escape");
    reveal_strlit("Backspace");
    reveal_strlit("Delete");
    reveal_strlit("Up");
    reveal_strlit("Down");
    reveal_strlit("Left");
    reveal_strlit("Right");
}

/// Peels one leading modifier off a well-formed accelerator.
pub proof fn lemma_valid_accel_step(s: Seq<char>, i: int)
    requires
        0 < i,
        i + 1 < s.len(),
        forall|j: int| 0 <= j < i ==> s[j] != '+',
        s[i] == '+',
        !is_key(s),
        is_modifier(s.subrange(0, i)),
        valid_accelerator(s.subrange(i + 1, s.len() as int)),
    ensures
        valid_accelerator(s),
{
    lemma_first_plus_is(s, i);
}

/// `CmdOrCtrl`, `'+'`, and a single key character form a well-formed
/// accelerator.
pub proof fn lemma_accel_cmdorctrl_single(s: Seq<char>)
    requires
        s.len() == 11,
        s.subrange(0, 9) == "CmdOrCtrl"@,
        s[9] == '+',
    ensures
        valid_accelerator(s),
{
    reveal_strlit("CmdOrCtrl");
    lemma_not_key(s);
    let tail = s.subrange(10, 11);
    assert(tail.len() == 1);
    assert(valid_accelerator(tail));
    assert forall|j: int| 0 <= j < 9 implies s[j] != '+' by {
        assert(s[j] == "CmdOrCtrl"@[j]);
    }
    lemma_valid_accel_step(s, 9);
}

/// `CmdOrCtrl`, `'+'`, `Shift`, `'+'`, and a single key character form a
/// well-formed accelerator.
pub proof fn lemma_accel_cmdorctrl_shift_single(s: Seq<char>)
    requires
        s.len() == 17,
        s.subrange(0, 9) == "CmdOrCtrl"@,
        s[9] == '+',
        s.subrange(10, 15) == "Shift"@,
        s[15] == '+',
    ensures
        valid_accelerator(s),
{
    reveal_strlit("CmdOrCtrl");
    reveal_strlit("Shift");
    let rest = s.subrange(10, 17);
    assert(rest.len() == 7);
    lemma_not_key(rest);
    let tail = rest.subrange(6, 7);
    assert(tail.len() == 1);
    assert(valid_accelerator(tail));
    assert(rest.subrange(0, 5) =~= s.subrange(10, 15));
    assert forall|j: int| 0 <= j < 5 implies rest[j] != '+' by {
        assert(rest[j] == "Shift"@[j]);
    }
    assert(rest[5] == '+');
    lemma_valid_accel_step(rest, 5);
    lemma_not_key(s);
    assert forall|j: int| 0 <= j < 9 implies s[j] != '+' by {
        assert(s[j] == "CmdOrCtrl"@[j]);
    }
    assert(s.subrange(10, s.len() as int) == rest);
    lemma_valid_accel_step(s, 9);
}

/// String equality, decided character by character.
pub fn str_eq(a: &str, b: &str) -> (r: bool)
    ensures
        r == (a@ == b@),
{
    let alen = a.unicode_len();
    let blen = b.unicode_len();
    if alen != blen {
        proof {
            assert(a@ != b@);
        }
        return false;
    }
    let mut i: usize = 0;
    while i < alen
        invariant
            alen == a@.len(),
            blen == b@.len(),
            alen == blen,
            0 <= i <= alen,
            forall|j: int| 0 <= j < i ==> a@[j] == b@[j],
        decreases alen - i,
    {
        let ca = a.get_char(i);
        let cb = b.get_char(i);
        if ca != cb {
            proof {
                assert(a@[i as int] != b@[i as int]);
            }
            return false;
        }
        i = i + 1;
    }
    proof {
        assert(a@ =~= b@);
    }
    true
}

/// Decides membership in the modifier set.
pub fn is_modifier_str(tok: &str) -> (r: bool)
    ensures
        r == is_modifier(tok@),
{
    str_eq(tok, "CmdOrCtrl") || str_eq(tok, "Cmd") || str_eq(tok, "Ctrl") || str_eq(tok, "Shift")
        || str_eq(tok, "Alt") || str_eq(tok, "Option") || str_eq(tok, "Super")
}

/// Decides membership in the named-key set.
pub fn is_named_key_str(tok: &str) -> (r: bool)
    ensures
        r == is_named_key(tok@),
{
    str_eq(tok, "Space") || str_eq(tok, "Tab") || str_eq(tok, "Enter") || str_eq(tok, "Escape")
        || str_eq(tok, "Backspace") || str_eq(tok, "Delete") || str_eq(tok, "Up") || str_eq(
        tok,
        "Down",
    ) || str_eq(tok, "Left") || str_eq(tok, "Right")
}

/// Decides whether `tok` is a key token.
pub fn is_key_str(tok: &str) -> (r: bool)
    ensures
        r == is_key(tok@),
{
    tok.unicode_len() == 1 || is_named_key_str(tok)
}

/// Finds the first `'+'`, returning the string's length if it has none.
pub fn find_plus(s: &str) -> (i: usize)
    ensures
        i as int == first_plus(s@),
        i <= s@.len(),
{
    let n = s.unicode_len();
    let mut i: usize = 0;
    while i < n
        invariant
            n == s@.len(),
            0 <= i <= n,
            forall|j: int| 0 <= j < i ==> s@[j] != '+',
        decreases n - i,
    {
        if s.get_char(i) == '+' {
            proof {
                lemma_first_plus_is(s@, i as int);
            }
            return i;
        }
        i = i + 1;
    }
    proof {
        lemma_first_plus_is(s@, n as int);
    }
    n
}

/// Decides the accelerator grammar.
pub fn accelerator_is_valid(s: &str) -> (r: bool)
    ensures
        r == valid_accelerator(s@),
    decreases s@.len(),
{
    if is_key_str(s) {
        return true;
    }
    let n = s.unicode_len();
    let i = find_plus(s);
    proof {
        lemma_first_plus_bounds(s@);
    }
    if i == 0 || i >= n {
        return false;
    }
    if i + 1 == n {
        return false;
    }
    let tok = s.substring_char(0, i);
    if !is_modifier_str(tok) {
        return false;
    }
    let rest = s.substring_char(i + 1, n);
    accelerator_is_valid(rest)
}

} // verus!
