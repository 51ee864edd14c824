use vstd::prelude::*;

use crate::annotations::{annotations_inline, push_annotations_inline, Annotation};
use crate::modifiers::{modifiers_are_valid, modifiers_code, modifiers_valid, AccessModifiers};
use crate::types::{type_code, TypeName};
use crate::Codegen;

verus! {

/// A field: name, type, modifiers, annotations and optional initializer.
/// Within a class, fields are identified by name.
#[derive(Clone)]
pub struct Field {
    pub annotation: Vec<Annotation>,
    pub modifiers: Vec<AccessModifiers>,
    pub name: String,
    pub type_: TypeName,
    pub initializer: Option<String>,
}

/// Indentation, annotations, indentation, modifiers, type, name and `;`,
/// followed by ` = init` when there is an initializer.
pub open spec fn field_code(f: Field) -> Seq<char> {
    "    "@ + annotations_inline(f.annotation@) + "    "@ + modifiers_code(f.modifiers@)
        + type_code(f.type_) + " "@ + f.name@ + ";\n"@ + match f.initializer {
        Some(i) => " = "@ + i@,
        None => Seq::empty(),
    }
}

impl Field {
    /// A field with one explicit modifier.
    pub fn new(name: String, type_: TypeName, modifier: AccessModifiers) -> (r: Self)
        ensures
            r.name@ == name@,
            r.type_ == type_,
            r.modifiers@ == seq![modifier],
            r.annotation@.len() == 0,
            r.initializer is None,
    {
        Self { name, type_, modifiers: vec![modifier], annotation: Vec::new(), initializer: None }
    }

    /// A private field.
    pub fn n(name: String, type_: TypeName) -> (r: Self)
        ensures
            r.name@ == name@,
            r.type_ == type_,
            r.modifiers@ == seq![AccessModifiers::Private],
            r.annotation@.len() == 0,
            r.initializer is None,
    {
        Self {
            name,
            type_,
            modifiers: vec![AccessModifiers::Private],
            initializer: None,
            annotation: Vec::new(),
        }
    }

    pub fn annotation(self, a: Annotation) -> (r: Self)
        ensures
            r == (Field { annotation: r.annotation, ..self }),
            r.annotation@ == self.annotation@.push(a),
    {
        let mut f = self;
        f.annotation.push(a);
        f
    }

    /// Whether this field can be rendered.
    pub fn is_valid(&self) -> (r: bool)
        ensures
            r == modifiers_valid(self.modifiers@),
    {
        modifiers_are_valid(&self.modifiers)
    }
}

/// Two fields are equal when their names are;
/// nothing else is compared.
impl PartialEq for Field {
    fn eq(&self, other: &Field) -> (r: bool) {
        self.name == other.name
    }
}

impl vstd::std_specs::cmp::PartialEqSpecImpl for Field {
    open spec fn obeys_eq_spec() -> bool {
        true
    }

    open spec fn eq_spec(&self, other: &Field) -> bool {
        self.name@ == other.name@
    }
}

impl Eq for Field {}

impl Codegen for Field {
    open spec fn can_render(&self) -> bool {
        modifiers_valid(self.modifiers@)
    }

    open spec fn rendered(&self) -> Seq<char> {
        field_code(*self)
    }

    fn generate_code(&self) -> (r: String) {
        let mut out = String::new();
        out.append("    ");
        push_annotations_inline(&mut out, &self.annotation);
        out.append("    ");
        let mods = self.modifiers.generate_code();
        out.append(mods.as_str());
        let tc = self.type_.generate_code();
        out.append(tc.as_str());
        out.append(" ");
        out.append(self.name.as_str());
        out.append(";\n");
        match &self.initializer {
            Some(init) => {
                out.append(" = ");
                out.append(init.as_str());
            },
            None => {},
        }
        assert(out@ =~= field_code(*self));
        out
    }
}

} // verus!
