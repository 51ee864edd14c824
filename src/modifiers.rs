use vstd::prelude::*;

use crate::Codegen;

verus! {

/// A Java access or structural modifier keyword.
#[derive(Copy, Clone, Debug, PartialEq, Eq, Structural, Hash)]
pub enum AccessModifiers {
    Public,
    Private,
    Protected,
    Static,
    Abstract,
    Final,
}

impl Default for AccessModifiers {
    fn default() -> (r: Self)
        ensures
            r == AccessModifiers::Public,
    {
        AccessModifiers::Public
    }
}

/// The Java keyword of a modifier.
pub open spec fn keyword(m: AccessModifiers) -> Seq<char> {
    match m {
        AccessModifiers::Public => "public"@,
        AccessModifiers::Private => "private"@,
        AccessModifiers::Protected => "protected"@,
        AccessModifiers::Static => "static"@,
        AccessModifiers::Abstract => "abstract"@,
        AccessModifiers::Final => "final"@,
    }
}

/// The position of a modifier in a declaration: higher ranks come first.
/// The three access modifiers share the top of the order, then `abstract`,
/// `final` and `static`.
pub open spec fn rank(m: AccessModifiers) -> nat {
    match m {
        AccessModifiers::Public => 5,
        AccessModifiers::Protected => 4,
        AccessModifiers::Private => 3,
        AccessModifiers::Abstract => 2,
        AccessModifiers::Final => 1,
        AccessModifiers::Static => 0,
    }
}

/// Whether a modifier is one of the mutually exclusive access modifiers.
pub open spec fn is_access(m: AccessModifiers) -> bool {
    m is Public || m is Private || m is Protected
}

/// A modifier list is valid when it holds at most one of `public`,
/// `protected` and `private` (each may repeat).
pub open spec fn modifiers_valid(ms: Seq<AccessModifiers>) -> bool {
    &&& !(ms.contains(AccessModifiers::Public) && ms.contains(AccessModifiers::Protected))
    &&& !(ms.contains(AccessModifiers::Protected) && ms.contains(AccessModifiers::Private))
    &&& !(ms.contains(AccessModifiers::Public) && ms.contains(AccessModifiers::Private))
}

/// The keyword of `m` followed by a space if `m` occurs in `ms`, else nothing.
pub open spec fn keyword_if_present(ms: Seq<AccessModifiers>, m: AccessModifiers) -> Seq<char> {
    if ms.contains(m) {
        keyword(m) + " "@
    } else {
        Seq::empty()
    }
}

/// The rendering of a modifier list: every modifier present, once, in the
/// canonical order `public|protected|private abstract final static`, each
/// followed by a space.
pub open spec fn modifiers_code(ms: Seq<AccessModifiers>) -> Seq<char> {
    keyword_if_present(ms, AccessModifiers::Public) + keyword_if_present(
        ms,
        AccessModifiers::Protected,
    ) + keyword_if_present(ms, AccessModifiers::Private) + keyword_if_present(
        ms,
        AccessModifiers::Abstract,
    ) + keyword_if_present(ms, AccessModifiers::Final) + keyword_if_present(
        ms,
        AccessModifiers::Static,
    )
}

impl AccessModifiers {
    /// The Java keyword of this modifier.
    pub fn keyword(&self) -> (r: String)
        ensures
            r@ == keyword(*self),
    {
        match self {
            AccessModifiers::Public => String::from_str("public"),
            AccessModifiers::Private => String::from_str("private"),
            AccessModifiers::Protected => String::from_str("protected"),
            AccessModifiers::Static => String::from_str("static"),
            AccessModifiers::Abstract => String::from_str("abstract"),
            AccessModifiers::Final => String::from_str("final"),
        }
    }

    /// The rank of this modifier in the canonical declaration order.
    pub fn rank(&self) -> (r: u8)
        ensures
            r as nat == rank(*self),
    {
        match self {
            AccessModifiers::Public => 5,
            AccessModifiers::Protected => 4,
            AccessModifiers::Private => 3,
            AccessModifiers::Abstract => 2,
            AccessModifiers::Final => 1,
            AccessModifiers::Static => 0,
        }
    }
}

/// Whether `m` occurs in `ms`.
pub fn contains_modifier(ms: &Vec<AccessModifiers>, m: AccessModifiers) -> (r: bool)
    ensures
        r == ms@.contains(m),
{
    let mut i: usize = 0;
    while i < ms.len()
        invariant
            0 <= i <= ms.len(),
            forall|j: int| 0 <= j < i ==> ms@[j] != m,
        decreases ms.len() - i,
    {
        if ms[i] == m {
            assert(ms@[i as int] == m);
            return true;
        }
        i = i + 1;
    }
    false
}

/// Whether a modifier list holds no two of `public`, `protected` and `private`.
pub fn modifiers_are_valid(ms: &Vec<AccessModifiers>) -> (r: bool)
    ensures
        r == modifiers_valid(ms@),
{
    let public = contains_modifier(ms, AccessModifiers::Public);
    let protected = contains_modifier(ms, AccessModifiers::Protected);
    let private = contains_modifier(ms, AccessModifiers::Private);
    !(public && protected) && !(protected && private) && !(public && private)
}

fn push_keyword_if_present(out: &mut String, ms: &Vec<AccessModifiers>, m: AccessModifiers)
    ensures
        final(out)@ == old(out)@ + keyword_if_present(ms@, m),
{
    if contains_modifier(ms, m) {
        let k = m.keyword();
        out.append(k.as_str());
        out.append(" ");
    } else {
        assert(old(out)@ + keyword_if_present(ms@, m) =~= old(out)@);
    }
}

impl Codegen for Vec<AccessModifiers> {
    open spec fn can_render(&self) -> bool {
        modifiers_valid(self@)
    }

    open spec fn rendered(&self) -> Seq<char> {
        modifiers_code(self@)
    }

    fn generate_code(&self) -> (r: String) {
        let mut out = String::new();
        push_keyword_if_present(&mut out, self, AccessModifiers::Public);
        push_keyword_if_present(&mut out, self, AccessModifiers::Protected);
        push_keyword_if_present(&mut out, self, AccessModifiers::Private);
        push_keyword_if_present(&mut out, self, AccessModifiers::Abstract);
        push_keyword_if_present(&mut out, self, AccessModifiers::Final);
        push_keyword_if_present(&mut out, self, AccessModifiers::Static);
        assert(out@ =~= modifiers_code(self@));
        out
    }
}

/// A list that holds two different access modifiers is never valid: it
/// fails the precondition of `generate_code`, so no text is ever produced for
/// it.
pub proof fn lemma_conflicting_access_modifiers_rejected(
    ms: Vec<AccessModifiers>,
    a: AccessModifiers,
    b: AccessModifiers,
)
    requires
        is_access(a),
        is_access(b),
        a != b,
        ms@.contains(a),
        ms@.contains(b),
    ensures
        !modifiers_valid(ms@),
        !ms.can_render(),
{
}

/// The rendering of a modifier list depends only on which modifiers occur in
/// it: neither their order nor their repetition changes the text.
pub proof fn lemma_modifiers_code_canonical(ms1: Seq<AccessModifiers>, ms2: Seq<AccessModifiers>)
    requires
        ms1.to_set() == ms2.to_set(),
    ensures
        modifiers_code(ms1) == modifiers_code(ms2),
{
    assert forall|m: AccessModifiers| ms1.contains(m) == ms2.contains(m) by {
        assert(ms1.to_set().contains(m) == ms1.contains(m));
        assert(ms2.to_set().contains(m) == ms2.contains(m));
    }
}

} // verus!
