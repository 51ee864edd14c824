use vstd::prelude::*;

use crate::annotations::{annotations_code, Annotation};
use crate::fields::{field_code, Field};
use crate::imports::{imports_code, Import};
use crate::methods::{method_code, method_valid, Method};
use crate::modifiers::{modifiers_are_valid, modifiers_code, modifiers_valid, AccessModifiers};
use crate::types::{generics_code, implements_code, GenericParams, Implements, TypeName};
use crate::Codegen;

verus! {

/// A Java class: package, imports, annotations, modifiers, name, generics,
/// superclass, implemented interfaces, fields (at most one per name, in
/// insertion order) and methods (in insertion order).
#[derive(Clone)]
pub struct JavaClass {
    pub imports: Vec<Import>,
    pub implements: Vec<Implements>,
    pub class_annotations: Vec<Annotation>,
    pub fields: Vec<Field>,
    pub methods: Vec<Method>,
    pub class_name: String,
    pub generic_params: GenericParams,
    pub class_modifiers: Vec<AccessModifiers>,
    pub superclass: Option<TypeName>,
    pub package: String,
}

/// No two fields share a name.
pub open spec fn field_names_unique(fs: Seq<Field>) -> bool {
    forall|i: int, j: int| 0 <= i < j < fs.len() ==> fs[i].name@ != fs[j].name@
}

/// `added` is `fs` after inserting `f` by name: the first field named like
/// `f` is replaced by it in place, or `f` is appended if there is none.
pub open spec fn field_inserted(fs: Seq<Field>, f: Field, added: Seq<Field>) -> bool {
    ||| (forall|j: int| 0 <= j < fs.len() ==> fs[j].name@ != f.name@) && added == fs.push(f)
    ||| exists|i: int|
        0 <= i < fs.len() && fs[i].name@ == f.name@ && (forall|j: int|
            0 <= j < i ==> fs[j].name@ != f.name@) && added == fs.update(i, f)
}

/// The fields rendered one after another.
pub open spec fn fields_code(fs: Seq<Field>) -> Seq<char>
    decreases fs.len(),
{
    if fs.len() == 0 {
        Seq::empty()
    } else {
        fields_code(fs.drop_last()) + field_code(fs.last())
    }
}

/// The methods rendered one after another.
pub open spec fn methods_code(ms: Seq<Method>) -> Seq<char>
    decreases ms.len(),
{
    if ms.len() == 0 {
        Seq::empty()
    } else {
        methods_code(ms.drop_last()) + method_code(ms.last())
    }
}

/// Every field has valid modifiers.
pub open spec fn fields_valid(fs: Seq<Field>) -> bool {
    forall|i: int| 0 <= i < fs.len() ==> modifiers_valid(#[trigger] fs[i].modifiers@)
}

/// Every method can be rendered.
pub open spec fn methods_valid(ms: Seq<Method>) -> bool {
    forall|i: int| 0 <= i < ms.len() ==> method_valid(#[trigger] ms[i])
}

/// `extends Super<G> ` for a superclass, or nothing.
pub open spec fn extends_code(sup: Option<TypeName>) -> Seq<char> {
    match sup {
        Some(s) => "extends "@ + s.name@ + match s.generic_params {
            Some(g) => generics_code(g.generics@),
            None => Seq::empty(),
        } + " "@,
        None => Seq::empty(),
    }
}

/// A class can be rendered when its package is set, no two of its fields
/// share a name, and its modifiers, its fields and its methods are valid.
pub open spec fn class_valid(c: JavaClass) -> bool {
    &&& c.package@.len() > 0
    &&& field_names_unique(c.fields@)
    &&& modifiers_valid(c.class_modifiers@)
    &&& fields_valid(c.fields@)
    &&& methods_valid(c.methods@)
}

/// Whether the class name is directly followed by the `extends` or the
/// `implements` clause, which then needs a separating space.
pub open spec fn name_needs_gap(c: JavaClass) -> bool {
    c.generic_params.generics@.len() == 0 && (c.superclass is Some || c.implements@.len() > 0)
}

/// The class declaration line: annotations, modifiers, name, generics,
/// superclass and interfaces.
pub open spec fn class_header(c: JavaClass) -> Seq<char> {
    annotations_code(c.class_annotations@) + modifiers_code(c.class_modifiers@) + "class "@
        + c.class_name@ + generics_code(c.generic_params.generics@) + (if name_needs_gap(c) {
        " "@
    } else {
        Seq::empty()
    }) + extends_code(c.superclass) + implements_code(c.implements@)
}

/// The package declaration, the imports, the class header and the body with
/// every field and then every method.
pub open spec fn class_code(c: JavaClass) -> Seq<char> {
    "package "@ + c.package@ + ";\n"@ + "\n"@ + imports_code(c.imports@) + "\n"@ + class_header(c)
        + "{"@ + "\n"@ + fields_code(c.fields@) + methods_code(c.methods@) + "\n}\n"@
}

/// Appends `extends Super<G> ` for a superclass, or nothing.
pub fn push_extends(out: &mut String, sup: &Option<TypeName>)
    ensures
        final(out)@ == old(out)@ + extends_code(*sup),
{
    match sup {
        Some(s) => {
            out.append("extends ");
            out.append(s.name.as_str());
            match &s.generic_params {
                Some(g) => {
                    let gc = g.generate_code();
                    out.append(gc.as_str());
                },
                None => {},
            }
            out.append(" ");
        },
        None => {},
    }
    assert(final(out)@ =~= old(out)@ + extends_code(*sup));
}

/// Appends the renderings of the methods.
pub fn push_methods(out: &mut String, ms: &Vec<Method>)
    requires
        methods_valid(ms@),
    ensures
        final(out)@ == old(out)@ + methods_code(ms@),
{
    let ghost start = out@;
    let mut i: usize = 0;
    while i < ms.len()
        invariant
            0 <= i <= ms.len(),
            methods_valid(ms@),
            out@ == start + methods_code(ms@.take(i as int)),
        decreases ms.len() - i,
    {
        assert(method_valid(ms@[i as int]));
        let code = ms[i].generate_code();
        out.append(code.as_str());
        proof {
            let t = ms@.take(i as int + 1);
            assert(t.drop_last() =~= ms@.take(i as int));
            assert(out@ =~= start + methods_code(t));
        }
        i = i + 1;
    }
    assert(ms@.take(ms.len() as int) =~= ms@);
}

/// Whether every method can be rendered.
pub fn methods_are_valid(ms: &Vec<Method>) -> (r: bool)
    ensures
        r == methods_valid(ms@),
{
    let mut i: usize = 0;
    while i < ms.len()
        invariant
            0 <= i <= ms.len(),
            forall|j: int| 0 <= j < i ==> method_valid(#[trigger] ms@[j]),
        decreases ms.len() - i,
    {
        if !ms[i].is_valid() {
            return false;
        }
        i = i + 1;
    }
    true
}

/// Whether no two fields share a name.
pub fn field_names_are_unique(fs: &Vec<Field>) -> (r: bool)
    ensures
        r == field_names_unique(fs@),
{
    let mut i: usize = 0;
    while i < fs.len()
        invariant
            0 <= i <= fs.len(),
            forall|a: int, b: int| 0 <= a < b < fs@.len() && a < i ==> fs@[a].name@ != fs@[b].name@,
        decreases fs.len() - i,
    {
        let mut j: usize = i + 1;
        while j < fs.len()
            invariant
                i < fs.len(),
                i + 1 <= j <= fs.len(),
                forall|a: int, b: int| 0 <= a < b < fs@.len() && a < i ==> fs@[a].name@ != fs@[b].name@,
                forall|b: int| i < b < j ==> fs@[i as int].name@ != fs@[b].name@,
            decreases fs.len() - j,
        {
            if fs[i].name == fs[j].name {
                return false;
            }
            j = j + 1;
        }
        i = i + 1;
    }
    true
}

/// Inserts `f` into `fs` by name.
pub fn insert_field(fs: &mut Vec<Field>, f: Field)
    ensures
        field_inserted(old(fs)@, f, final(fs)@),
        field_names_unique(old(fs)@) ==> field_names_unique(final(fs)@),
{
    let ghost start = fs@;
    let mut i: usize = 0;
    while i < fs.len()
        invariant
            fs@ == start,
            start == old(fs)@,
            0 <= i <= start.len(),
            forall|j: int| 0 <= j < i ==> start[j].name@ != f.name@,
        decreases start.len() - i,
    {
        if fs[i].name == f.name {
            let ghost target = i as int;
            fs.set(i, f);
            assert(fs@ == start.update(target, f));
            assert(field_inserted(start, f, fs@));
            assert(field_names_unique(start) ==> field_names_unique(fs@)) by {
                if field_names_unique(start) {
                    assert forall|a: int, b: int| 0 <= a < b < fs@.len() implies fs@[a].name@
                        != fs@[b].name@ by {
                        assert(fs@[a].name@ == start[a].name@);
                        assert(fs@[b].name@ == start[b].name@);
                    }
                }
            }
            return;
        }
        i = i + 1;
    }
    fs.push(f);
    assert(field_names_unique(start) ==> field_names_unique(fs@)) by {
        if field_names_unique(start) {
            assert forall|a: int, b: int| 0 <= a < b < fs@.len() implies fs@[a].name@
                != fs@[b].name@ by {
                if b < start.len() {
                    assert(fs@[a] == start[a]);
                    assert(fs@[b] == start[b]);
                } else {
                    assert(fs@[a] == start[a]);
                }
            }
        }
    }
}

impl JavaClass {
    /// A class with the given name and package and nothing else; the package
    /// may be left empty and set later.
    pub fn new(class_name: String, package: String) -> (r: JavaClass)
        requires
            class_name@.len() > 0,
        ensures
            r.class_name == class_name,
            r.package == package,
            r.imports@.len() == 0,
            r.implements@.len() == 0,
            r.class_annotations@.len() == 0,
            r.fields@.len() == 0,
            r.methods@.len() == 0,
            r.generic_params.generics@.len() == 0,
            r.class_modifiers@.len() == 0,
            r.superclass is None,
    {
        JavaClass {
            imports: Vec::new(),
            class_name,
            superclass: None,
            class_annotations: Vec::new(),
            class_modifiers: Vec::new(),
            implements: Vec::new(),
            fields: Vec::new(),
            package,
            methods: Vec::new(),
            generic_params: GenericParams::new(Vec::new()),
        }
    }

    pub fn method(self, m: Method) -> (r: Self)
        ensures
            r == (JavaClass { methods: r.methods, ..self }),
            r.methods@ == self.methods@.push(m),
    {
        let mut c = self;
        c.methods.push(m);
        c
    }

    /// Adds a generic parameter.
    pub fn generic_param(self, generic: String) -> (r: Self)
        ensures
            r == (JavaClass { generic_params: r.generic_params, ..self }),
            r.generic_params.generics@ == self.generic_params.generics@.push(generic),
    {
        let mut c = self;
        c.generic_params.generics.push(generic);
        c
    }

    fn add_modifier(self, m: AccessModifiers) -> (r: Self)
        ensures
            r == (JavaClass { class_modifiers: r.class_modifiers, ..self }),
            r.class_modifiers@ == self.class_modifiers@.push(m),
    {
        let mut c = self;
        c.class_modifiers.push(m);
        c
    }

    pub fn public(self) -> (r: Self)
        ensures
            r == (JavaClass { class_modifiers: r.class_modifiers, ..self }),
            r.class_modifiers@ == self.class_modifiers@.push(AccessModifiers::Public),
    {
        self.add_modifier(AccessModifiers::Public)
    }

    pub fn private(self) -> (r: Self)
        ensures
            r == (JavaClass { class_modifiers: r.class_modifiers, ..self }),
            r.class_modifiers@ == self.class_modifiers@.push(AccessModifiers::Private),
    {
        self.add_modifier(AccessModifiers::Private)
    }

    pub fn static_(self) -> (r: Self)
        ensures
            r == (JavaClass { class_modifiers: r.class_modifiers, ..self }),
            r.class_modifiers@ == self.class_modifiers@.push(AccessModifiers::Static),
    {
        self.add_modifier(AccessModifiers::Static)
    }

    pub fn abstract_(self) -> (r: Self)
        ensures
            r == (JavaClass { class_modifiers: r.class_modifiers, ..self }),
            r.class_modifiers@ == self.class_modifiers@.push(AccessModifiers::Abstract),
    {
        self.add_modifier(AccessModifiers::Abstract)
    }

    pub fn final_(self) -> (r: Self)
        ensures
            r == (JavaClass { class_modifiers: r.class_modifiers, ..self }),
            r.class_modifiers@ == self.class_modifiers@.push(AccessModifiers::Final),
    {
        self.add_modifier(AccessModifiers::Final)
    }

    pub fn protected(self) -> (r: Self)
        ensures
            r == (JavaClass { class_modifiers: r.class_modifiers, ..self }),
            r.class_modifiers@ == self.class_modifiers@.push(AccessModifiers::Protected),
    {
        self.add_modifier(AccessModifiers::Protected)
    }

    /// Sets the package of this class in place.
    pub fn package_in_place(&mut self, pkg: String)
        ensures
            *final(self) == (JavaClass { package: pkg, ..*old(self) }),
    {
        self.package = pkg;
    }

    pub fn package(self, pkg: String) -> (r: Self)
        ensures
            r == (JavaClass { package: pkg, ..self }),
    {
        JavaClass { package: pkg, ..self }
    }

    /// Appends the given modifiers, in order.
    pub fn class_modifiers(self, modifiers: Vec<AccessModifiers>) -> (r: Self)
        ensures
            r == (JavaClass { class_modifiers: r.class_modifiers, ..self }),
            r.class_modifiers@ == self.class_modifiers@ + modifiers@,
    {
        let mut c = self;
        let mut extra = modifiers;
        c.class_modifiers.append(&mut extra);
        c
    }

    pub fn class_name(self, name: String) -> (r: Self)
        ensures
            r == (JavaClass { class_name: name, ..self }),
    {
        JavaClass { class_name: name, ..self }
    }

    pub fn extends(self, extends: TypeName) -> (r: Self)
        ensures
            r == (JavaClass { superclass: Some(extends), ..self }),
    {
        JavaClass { superclass: Some(extends), ..self }
    }

    pub fn import(self, imp: Import) -> (r: Self)
        ensures
            r == (JavaClass { imports: r.imports, ..self }),
            r.imports@ == self.imports@.push(imp),
    {
        let mut c = self;
        c.imports.push(imp);
        c
    }

    /// Appends the given imports, in order, duplicates included.
    pub fn imports(self, imps: Vec<Import>) -> (r: Self)
        ensures
            r == (JavaClass { imports: r.imports, ..self }),
            r.imports@ == self.imports@ + imps@,
    {
        let mut c = self;
        let mut extra = imps;
        c.imports.append(&mut extra);
        c
    }

    /// Inserts a field by name: a field with the same name is replaced in
    /// its place, otherwise the field is appended.
    pub fn field(self, f: Field) -> (r: Self)
        ensures
            r == (JavaClass { fields: r.fields, ..self }),
            field_inserted(self.fields@, f, r.fields@),
            field_names_unique(self.fields@) ==> field_names_unique(r.fields@),
    {
        let mut c = self;
        insert_field(&mut c.fields, f);
        c
    }

    pub fn annotation(self, a: Annotation) -> (r: Self)
        ensures
            r == (JavaClass { class_annotations: r.class_annotations, ..self }),
            r.class_annotations@ == self.class_annotations@.push(a),
    {
        let mut c = self;
        c.class_annotations.push(a);
        c
    }

    /// Appends the given annotations, in order.
    pub fn annotations(self, a: Vec<Annotation>) -> (r: Self)
        ensures
            r == (JavaClass { class_annotations: r.class_annotations, ..self }),
            r.class_annotations@ == self.class_annotations@ + a@,
    {
        let mut c = self;
        let mut extra = a;
        c.class_annotations.append(&mut extra);
        c
    }

    pub fn implements(self, interface: Implements) -> (r: Self)
        ensures
            r == (JavaClass { implements: r.implements, ..self }),
            r.implements@ == self.implements@.push(interface),
    {
        let mut c = self;
        c.implements.push(interface);
        c
    }

    /// Ends a chain of builder calls.
    pub fn build(self) -> (r: Self)
        ensures
            r == self,
    {
        self
    }

    /// Whether this class can be rendered.
    pub fn is_valid(&self) -> (r: bool)
        ensures
            r == class_valid(*self),
    {
        if self.package.as_str().is_empty() || !modifiers_are_valid(&self.class_modifiers) {
            return false;
        }
        let mut i: usize = 0;
        while i < self.fields.len()
            invariant
                0 <= i <= self.fields.len(),
                forall|j: int|
                    0 <= j < i ==> modifiers_valid(#[trigger] self.fields@[j].modifiers@),
            decreases self.fields.len() - i,
        {
            if !self.fields[i].is_valid() {
                return false;
            }
            i = i + 1;
        }
        field_names_are_unique(&self.fields) && methods_are_valid(&self.methods)
    }
}

impl Codegen for JavaClass {
    open spec fn can_render(&self) -> bool {
        class_valid(*self)
    }

    open spec fn rendered(&self) -> Seq<char> {
        class_code(*self)
    }

    fn generate_code(&self) -> (r: String) {
        let mut out = String::new();
        out.append("package ");
        out.append(self.package.as_str());
        out.append(";\n");
        out.append("\n");
        let imps = self.imports.generate_code();
        out.append(imps.as_str());
        out.append("\n");
        push_class_header(&mut out, self);
        out.append("{");
        out.append("\n");
        push_fields(&mut out, &self.fields);
        push_methods(&mut out, &self.methods);
        out.append("\n}\n");
        assert(out@ =~= class_code(*self));
        out
    }
}

/// The advisories about a class that is legal but probably unfinished: no
/// imports, no class modifiers.
pub open spec fn class_advisories(c: JavaClass) -> Seq<Seq<char>> {
    (if c.imports@.len() == 0 {
        seq!["No imports found you might have forgotten them"@]
    } else {
        Seq::empty()
    }) + (if c.class_modifiers@.len() == 0 {
        seq!["No class modifiers you might want to make your class public"@]
    } else {
        Seq::empty()
    })
}

impl JavaClass {
    /// Warnings that do not stop rendering: a class without imports or
    /// without modifiers.
    pub fn advisories(&self) -> (r: Vec<String>)
        ensures
            r@.map_values(|w: String| w@) == class_advisories(*self),
    {
        let mut r: Vec<String> = Vec::new();
        if self.imports.len() == 0 {
            r.push(String::from_str("No imports found you might have forgotten them"));
        }
        if self.class_modifiers.len() == 0 {
            r.push(String::from_str("No class modifiers you might want to make your class public"));
        }
        assert(r@.map_values(|w: String| w@) =~= class_advisories(*self));
        r
    }
}

/// Appends the class declaration line.
fn push_class_header(out: &mut String, c: &JavaClass)
    requires
        modifiers_valid(c.class_modifiers@),
    ensures
        final(out)@ == old(out)@ + class_header(*c),
{
    let anns = c.class_annotations.generate_code();
    out.append(anns.as_str());
    let mods = c.class_modifiers.generate_code();
    out.append(mods.as_str());
    out.append("class ");
    out.append(c.class_name.as_str());
    let gens = c.generic_params.generate_code();
    out.append(gens.as_str());
    if c.generic_params.generics.len() == 0 && (c.superclass.is_some() || c.implements.len() > 0) {
        out.append(" ");
    }
    push_extends(out, &c.superclass);
    let impls = c.implements.generate_code();
    out.append(impls.as_str());
    assert(final(out)@ =~= old(out)@ + class_header(*c));
}

/// Appends the renderings of the fields.
fn push_fields(out: &mut String, fs: &Vec<Field>)
    requires
        fields_valid(fs@),
    ensures
        final(out)@ == old(out)@ + fields_code(fs@),
{
    let ghost start = out@;
    let mut i: usize = 0;
    while i < fs.len()
        invariant
            0 <= i <= fs.len(),
            fields_valid(fs@),
            out@ == start + fields_code(fs@.take(i as int)),
        decreases fs.len() - i,
    {
        assert(modifiers_valid(fs@[i as int].modifiers@));
        let code = fs[i].generate_code();
        out.append(code.as_str());
        proof {
            let t = fs@.take(i as int + 1);
            assert(t.drop_last() =~= fs@.take(i as int));
            assert(out@ =~= start + fields_code(t));
        }
        i = i + 1;
    }
    assert(fs@.take(fs.len() as int) =~= fs@);
}

} // verus!
