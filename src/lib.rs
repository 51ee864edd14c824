//! Java source generation: an in-memory model of Java declarations
//! (classes, interfaces, enums, fields, methods, annotations, imports,
//! modifiers and type names) and its rendering to Java text, with the
//! Maven/Spring project model built on top of it.
use vstd::prelude::*;

pub mod modifiers;
pub mod types;
pub mod annotations;
pub mod imports;
pub mod methods;
pub mod fields;
pub mod classes;
pub mod interfaces;
pub mod enums;
pub mod pom_xml;
pub mod text;
pub mod output;
pub mod crud_builder;
pub mod maven_builder;
pub mod conversions;
pub mod mentions;
pub mod copies;

pub use methods::VariableParam;

verus! {

/// Rendering of a declaration model to Java source text.
///
/// `can_render` is the condition under which rendering is defined (for
/// example: no two exclusive access modifiers, no body on an abstract
/// method); `rendered` is the exact text produced.
pub trait Codegen {
    spec fn can_render(&self) -> bool;

    spec fn rendered(&self) -> Seq<char>;

    fn generate_code(&self) -> (r: String)
        requires
            self.can_render(),
        ensures
            r@ == self.rendered(),
    ;
}

/// Rendering is a function of the value alone: two renderings of the same
/// unchanged value give the same text.
pub proof fn lemma_generate_code_idempotent<T: Codegen>(x: &T, first: String, second: String)
    requires
        x.can_render(),
        first@ == x.rendered(),
        second@ == x.rendered(),
    ensures
        first@ == second@,
{
}

} // verus!
