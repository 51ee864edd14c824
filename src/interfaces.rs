use vstd::prelude::*;
use vstd::string::StrSliceExecFns;

use crate::annotations::{annotations_code, Annotation};
use crate::classes::extends_code;
use crate::classes::push_extends;
use crate::imports::{imports_code, Import};
use crate::methods::{params_code, Method};
use crate::modifiers::{modifiers_are_valid, modifiers_code, modifiers_valid, AccessModifiers};
use crate::types::{generics_code, type_code, GenericParams, TypeName};
use crate::Codegen;

verus! {

/// A Java interface: package, imports, one modifier, name, an optional
/// extended interface and method signatures, which carry no body.
#[derive(Clone)]
pub struct Interface {
    pub annotations: Vec<Annotation>,
    pub package: String,
    pub imports: Vec<Import>,
    pub superclass: Option<TypeName>,
    pub name: String,
    pub methods: Vec<Method>,
    pub modifier: AccessModifiers,
    pub generics: GenericParams,
}

/// An interface method renders as a tab, its modifiers, its generics
/// (surrounded by spaces) if any, its return type, name and parameters,
/// and `;`.
pub open spec fn signature_code(m: Method) -> Seq<char> {
    "\t"@ + modifiers_code(m.modifiers@) + (if m.generics.generics@.len() == 0 {
        Seq::empty()
    } else {
        " "@ + generics_code(m.generics.generics@) + " "@
    }) + type_code(m.return_type) + " "@ + m.name@ + params_code(m.parameters@) + ";\n"@
}

/// The signatures of the methods, one per line.
pub open spec fn signatures_code(ms: Seq<Method>) -> Seq<char>
    decreases ms.len(),
{
    if ms.len() == 0 {
        Seq::empty()
    } else {
        signatures_code(ms.drop_last()) + signature_code(ms.last())
    }
}

/// Every method of an interface is bodiless and has valid modifiers.
pub open spec fn signatures_valid(ms: Seq<Method>) -> bool {
    forall|i: int|
        0 <= i < ms.len() ==> (#[trigger] ms[i]).code@.len() == 0 && modifiers_valid(
            ms[i].modifiers@,
        )
}

/// The package, the imports, the annotations, the modifier, `interface Name `,
/// the extended interface and the method signatures in braces.
pub open spec fn interface_code(i: Interface) -> Seq<char> {
    "package "@ + i.package@ + ";\n"@ + imports_code(i.imports@) + annotations_code(i.annotations@)
        + modifiers_code(seq![i.modifier])
        + "interface "@ + i.name@ + " "@ + extends_code(i.superclass) + "{"@ + "\n"@
        + signatures_code(i.methods@) + "}"@
}

/// Appends the signature of an interface method.
pub fn push_signature(out: &mut String, m: &Method)
    requires
        modifiers_valid(m.modifiers@),
    ensures
        final(out)@ == old(out)@ + signature_code(*m),
{
    out.append("\t");
    let mods = m.modifiers.generate_code();
    out.append(mods.as_str());
    if m.generics.generics.len() != 0 {
        out.append(" ");
        let gens = m.generics.generate_code();
        out.append(gens.as_str());
        out.append(" ");
    }
    let rt = m.return_type.generate_code();
    out.append(rt.as_str());
    out.append(" ");
    out.append(m.name.as_str());
    let ps = m.parameters.generate_code();
    out.append(ps.as_str());
    out.append(";\n");
    assert(final(out)@ =~= old(out)@ + signature_code(*m));
}

impl Interface {
    pub fn package(self, pkg: String) -> (r: Self)
        ensures
            r == (Interface { package: pkg, ..self }),
    {
        Interface { package: pkg, ..self }
    }

    /// Sets the package of this interface in place.
    pub fn package_in_place(&mut self, pkg: String)
        ensures
            *final(self) == (Interface { package: pkg, ..*old(self) }),
    {
        self.package = pkg;
    }

    /// A public interface with the given package and name and nothing else.
    pub fn new(package_name: String, interface_name: String) -> (r: Self)
        ensures
            r.name@ == interface_name@,
            r.package@ == package_name@,
            r.generics.generics@.len() == 0,
            r.modifier == AccessModifiers::Public,
            r.methods@.len() == 0,
            r.superclass is None,
            r.imports@.len() == 0,
            r.annotations@.len() == 0,
    {
        Self {
            name: interface_name,
            package: package_name,
            generics: GenericParams::new(Vec::new()),
            modifier: AccessModifiers::Public,
            methods: Vec::new(),
            superclass: None,
            imports: Vec::new(),
            annotations: Vec::new(),
        }
    }

    /// Replaces the modifier.
    pub fn modifier(self, m: AccessModifiers) -> (r: Self)
        ensures
            r == (Interface { modifier: m, ..self }),
    {
        Interface { modifier: m, ..self }
    }

    pub fn public(self) -> (r: Self)
        ensures
            r == (Interface { modifier: AccessModifiers::Public, ..self }),
    {
        self.modifier(AccessModifiers::Public)
    }

    pub fn private(self) -> (r: Self)
        ensures
            r == (Interface { modifier: AccessModifiers::Private, ..self }),
    {
        self.modifier(AccessModifiers::Private)
    }

    pub fn protected(self) -> (r: Self)
        ensures
            r == (Interface { modifier: AccessModifiers::Protected, ..self }),
    {
        self.modifier(AccessModifiers::Protected)
    }

    pub fn abstract_(self) -> (r: Self)
        ensures
            r == (Interface { modifier: AccessModifiers::Abstract, ..self }),
    {
        self.modifier(AccessModifiers::Abstract)
    }

    pub fn static_(self) -> (r: Self)
        ensures
            r == (Interface { modifier: AccessModifiers::Static, ..self }),
    {
        self.modifier(AccessModifiers::Static)
    }

    pub fn final_(self) -> (r: Self)
        ensures
            r == (Interface { modifier: AccessModifiers::Final, ..self }),
    {
        self.modifier(AccessModifiers::Final)
    }

    pub fn extends(self, sup: TypeName) -> (r: Self)
        ensures
            r == (Interface { superclass: Some(sup), ..self }),
    {
        Interface { superclass: Some(sup), ..self }
    }

    /// Appends the given methods, in order.
    pub fn methods(self, methods: Vec<Method>) -> (r: Self)
        ensures
            r == (Interface { methods: r.methods, ..self }),
            r.methods@ == self.methods@ + methods@,
    {
        let mut i = self;
        let mut extra = methods;
        i.methods.append(&mut extra);
        i
    }

    pub fn method(self, m: Method) -> (r: Self)
        ensures
            r == (Interface { methods: r.methods, ..self }),
            r.methods@ == self.methods@.push(m),
    {
        let mut i = self;
        i.methods.push(m);
        i
    }

    pub fn import(self, imp: Import) -> (r: Self)
        ensures
            r == (Interface { imports: r.imports, ..self }),
            r.imports@ == self.imports@.push(imp),
    {
        let mut i = self;
        i.imports.push(imp);
        i
    }

    pub fn annotation(self, a: Annotation) -> (r: Self)
        ensures
            r == (Interface { annotations: r.annotations, ..self }),
            r.annotations@ == self.annotations@.push(a),
    {
        let mut i = self;
        i.annotations.push(a);
        i
    }

    pub fn generic_param(self, g: String) -> (r: Self)
        ensures
            r == (Interface { generics: r.generics, ..self }),
            r.generics.generics@ == self.generics.generics@.push(g),
    {
        let mut i = self;
        i.generics.generics.push(g);
        i
    }

    /// Whether this interface can be rendered: all of its methods are
    /// bodiless, with valid modifiers.
    pub fn is_valid(&self) -> (r: bool)
        ensures
            r == signatures_valid(self.methods@),
    {
        let mut k: usize = 0;
        while k < self.methods.len()
            invariant
                0 <= k <= self.methods.len(),
                forall|j: int|
                    0 <= j < k ==> (#[trigger] self.methods@[j]).code@.len() == 0
                        && modifiers_valid(self.methods@[j].modifiers@),
            decreases self.methods.len() - k,
        {
            if self.methods[k].code.as_str().unicode_len() != 0 || !modifiers_are_valid(
                &self.methods[k].modifiers,
            ) {
                return false;
            }
            k = k + 1;
        }
        true
    }
}

impl Codegen for Interface {
    open spec fn can_render(&self) -> bool {
        signatures_valid(self.methods@)
    }

    open spec fn rendered(&self) -> Seq<char> {
        interface_code(*self)
    }

    fn generate_code(&self) -> (r: String) {
        let mut out = String::new();
        out.append("package ");
        out.append(self.package.as_str());
        out.append(";\n");
        let imps = self.imports.generate_code();
        out.append(imps.as_str());
        let anns = self.annotations.generate_code();
        out.append(anns.as_str());
        let single = vec![self.modifier];
        assert(single@ =~= seq![self.modifier]);
        let mods = single.generate_code();
        out.append(mods.as_str());
        out.append("interface ");
        out.append(self.name.as_str());
        out.append(" ");
        push_extends(&mut out, &self.superclass);
        out.append("{");
        out.append("\n");
        let ghost start = out@;
        let mut k: usize = 0;
        while k < self.methods.len()
            invariant
                0 <= k <= self.methods.len(),
                signatures_valid(self.methods@),
                out@ == start + signatures_code(self.methods@.take(k as int)),
            decreases self.methods.len() - k,
        {
            assert(modifiers_valid(self.methods@[k as int].modifiers@));
            push_signature(&mut out, &self.methods[k]);
            proof {
                let t = self.methods@.take(k as int + 1);
                assert(t.drop_last() =~= self.methods@.take(k as int));
                assert(out@ =~= start + signatures_code(t));
            }
            k = k + 1;
        }
        assert(self.methods@.take(self.methods.len() as int) =~= self.methods@);
        out.append("}");
        assert(out@ =~= interface_code(*self));
        out
    }
}

/// An interface that holds a method with a non-empty body, whatever else it
/// holds, fails the precondition of `generate_code`, so it is never rendered.
pub proof fn lemma_interface_method_with_body_rejected(i: Interface, k: int)
    requires
        0 <= k < i.methods@.len(),
        i.methods@[k].code@.len() > 0,
    ensures
        !signatures_valid(i.methods@),
        !i.can_render(),
{
}

} // verus!
