use vstd::prelude::*;

use crate::Codegen;

verus! {

/// The strings of `s` joined by `sep`.
pub open spec fn join_strings(s: Seq<String>, sep: Seq<char>) -> Seq<char>
    decreases s.len(),
{
    if s.len() == 0 {
        Seq::empty()
    } else if s.len() == 1 {
        s[0]@
    } else {
        join_strings(s.drop_last(), sep) + sep + s.last()@
    }
}

/// Appends the strings of `items`, joined by `sep`.
pub fn push_joined(out: &mut String, items: &Vec<String>, sep: &str)
    ensures
        final(out)@ == old(out)@ + join_strings(items@, sep@),
{
    let ghost start = out@;
    let mut i: usize = 0;
    while i < items.len()
        invariant
            0 <= i <= items.len(),
            out@ == start + join_strings(items@.take(i as int), sep@),
        decreases items.len() - i,
    {
        if i > 0 {
            out.append(sep);
        }
        out.append(items[i].as_str());
        proof {
            let t = items@.take(i as int + 1);
            assert(t.drop_last() =~= items@.take(i as int));
            if i == 0 {
                assert(out@ =~= start + join_strings(t, sep@));
            } else {
                assert(out@ =~= start + join_strings(t, sep@));
            }
        }
        i = i + 1;
    }
    assert(items@.take(items.len() as int) =~= items@);
}

/// An ordered list of generic parameters, such as `T` or `Customer`.
#[derive(Debug, Clone)]
pub struct GenericParams {
    pub generics: Vec<String>,
}

/// Generic parameters render as `<G1,G2> ` (with a trailing space), or as
/// nothing when the list is empty.
pub open spec fn generics_code(g: Seq<String>) -> Seq<char> {
    if g.len() == 0 {
        Seq::empty()
    } else {
        "<"@ + join_strings(g, ","@) + "> "@
    }
}

impl GenericParams {
    pub fn new(generics: Vec<String>) -> (r: Self)
        ensures
            r.generics@ == generics@,
    {
        Self { generics }
    }
}

impl Codegen for GenericParams {
    open spec fn can_render(&self) -> bool {
        true
    }

    open spec fn rendered(&self) -> Seq<char> {
        generics_code(self.generics@)
    }

    fn generate_code(&self) -> (r: String) {
        let mut out = String::new();
        if self.generics.len() == 0 {
            return out;
        }
        out.append("<");
        push_joined(&mut out, &self.generics, ",");
        out.append("> ");
        out
    }
}

/// A reference to a Java type: a name and optional generic parameters.
#[derive(Debug, Clone)]
pub struct TypeName {
    pub name: String,
    pub generic_params: Option<GenericParams>,
}

/// A type that a class implements.
pub type Implements = TypeName;

/// A type name renders as its name followed by its generic parameters.
pub open spec fn type_code(t: TypeName) -> Seq<char> {
    t.name@ + match t.generic_params {
        Some(g) => generics_code(g.generics@),
        None => Seq::empty(),
    }
}

impl TypeName {
    pub fn new(name: String) -> (r: Self)
        ensures
            r.name@ == name@,
            r.generic_params is None,
    {
        Self { name, generic_params: None }
    }

    pub fn new_with_generics(name: String, generics: GenericParams) -> (r: Self)
        ensures
            r.name@ == name@,
            r.generic_params == Some(generics),
    {
        Self { name, generic_params: Some(generics) }
    }
}

/// Two type names are equal when their names are;
/// nothing else is compared.
impl PartialEq for TypeName {
    fn eq(&self, other: &TypeName) -> (r: bool) {
        self.name == other.name
    }
}

impl vstd::std_specs::cmp::PartialEqSpecImpl for TypeName {
    open spec fn obeys_eq_spec() -> bool {
        true
    }

    open spec fn eq_spec(&self, other: &TypeName) -> bool {
        self.name@ == other.name@
    }
}

impl Eq for TypeName {}

/// An owned string converts into the type of that name, without generics.
impl From<String> for TypeName {
    fn from(name: String) -> (r: Self) {
        TypeName { name, generic_params: None }
    }
}

impl vstd::std_specs::convert::FromSpecImpl<String> for TypeName {
    open spec fn obeys_from_spec() -> bool {
        true
    }

    open spec fn from_spec(name: String) -> TypeName {
        TypeName { name, generic_params: None }
    }
}

impl Codegen for TypeName {
    open spec fn can_render(&self) -> bool {
        true
    }

    open spec fn rendered(&self) -> Seq<char> {
        type_code(*self)
    }

    fn generate_code(&self) -> (r: String) {
        let mut out = self.name.clone();
        match &self.generic_params {
            Some(g) => {
                let gc = g.generate_code();
                out.append(gc.as_str());
            },
            None => {
                assert(out@ =~= type_code(*self));
            },
        }
        out
    }
}

/// The type names of `ts`, rendered and joined by `, `.
pub open spec fn join_types(ts: Seq<TypeName>) -> Seq<char>
    decreases ts.len(),
{
    if ts.len() == 0 {
        Seq::empty()
    } else if ts.len() == 1 {
        type_code(ts[0])
    } else {
        join_types(ts.drop_last()) + ", "@ + type_code(ts.last())
    }
}

/// An `implements` clause: `implements I1, I2 ` or nothing for no interface.
pub open spec fn implements_code(ts: Seq<TypeName>) -> Seq<char> {
    if ts.len() == 0 {
        Seq::empty()
    } else {
        "implements "@ + join_types(ts) + " "@
    }
}

impl Codegen for Vec<TypeName> {
    open spec fn can_render(&self) -> bool {
        true
    }

    open spec fn rendered(&self) -> Seq<char> {
        implements_code(self@)
    }

    fn generate_code(&self) -> (r: String) {
        let mut out = String::new();
        if self.len() == 0 {
            return out;
        }
        out.append("implements ");
        let ghost start = out@;
        let mut i: usize = 0;
        while i < self.len()
            invariant
                0 <= i <= self.len(),
                out@ == start + join_types(self@.take(i as int)),
            decreases self.len() - i,
        {
            if i > 0 {
                out.append(", ");
            }
            let tc = self[i].generate_code();
            out.append(tc.as_str());
            proof {
                let t = self@.take(i as int + 1);
                assert(t.drop_last() =~= self@.take(i as int));
                assert(out@ =~= start + join_types(t));
            }
            i = i + 1;
        }
        assert(self@.take(self.len() as int) =~= self@);
        out.append(" ");
        out
    }
}

} // verus!
