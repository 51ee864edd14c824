use vstd::prelude::*;

use crate::annotations::Annotation;
use crate::classes::JavaClass;
use crate::fields::Field;
use crate::imports::Import;
use crate::methods::{Method, VariableParam};
use crate::types::{GenericParams, TypeName};

verus! {

/// Same generic parameters.
pub open spec fn same_generics(a: GenericParams, b: GenericParams) -> bool {
    a.generics@ == b.generics@
}

/// Same name and same generic parameters.
pub open spec fn same_type(a: TypeName, b: TypeName) -> bool {
    &&& a.name == b.name
    &&& match (a.generic_params, b.generic_params) {
        (Some(g), Some(h)) => same_generics(g, h),
        (None, None) => true,
        _ => false,
    }
}

/// Both absent, or both present and the same type.
pub open spec fn same_opt_type(a: Option<TypeName>, b: Option<TypeName>) -> bool {
    match (a, b) {
        (Some(s), Some(t)) => same_type(s, t),
        (None, None) => true,
        _ => false,
    }
}

/// The same types, position by position.
pub open spec fn same_types(a: Seq<TypeName>, b: Seq<TypeName>) -> bool {
    a.len() == b.len() && forall|i: int| 0 <= i < a.len() ==> same_type(#[trigger] a[i], b[i])
}

/// Same qualified name and same parameter pairs.
pub open spec fn same_annotation(a: Annotation, b: Annotation) -> bool {
    &&& a.qualified_name == b.qualified_name
    &&& match (a.params_list, b.params_list) {
        (Some(p), Some(q)) => p@ == q@,
        (None, None) => true,
        _ => false,
    }
}

/// The same annotations, position by position.
pub open spec fn same_annotations(a: Seq<Annotation>, b: Seq<Annotation>) -> bool {
    a.len() == b.len() && forall|i: int| 0 <= i < a.len() ==> same_annotation(#[trigger] a[i], b[i])
}

/// The same parameter.
pub open spec fn same_param(a: VariableParam, b: VariableParam) -> bool {
    a.name == b.name && same_type(a.type_, b.type_) && same_annotations(a.annotation@, b.annotation@)
}

/// The same field.
pub open spec fn same_field(a: Field, b: Field) -> bool {
    &&& a.name == b.name
    &&& same_type(a.type_, b.type_)
    &&& a.modifiers@ == b.modifiers@
    &&& same_annotations(a.annotation@, b.annotation@)
    &&& a.initializer == b.initializer
}

/// The same fields, position by position.
pub open spec fn same_fields(a: Seq<Field>, b: Seq<Field>) -> bool {
    a.len() == b.len() && forall|i: int| 0 <= i < a.len() ==> same_field(#[trigger] a[i], b[i])
}

/// The same method.
pub open spec fn same_method(a: Method, b: Method) -> bool {
    &&& a.name == b.name
    &&& a.code == b.code
    &&& same_type(a.return_type, b.return_type)
    &&& a.modifiers@ == b.modifiers@
    &&& same_generics(a.generics, b.generics)
    &&& same_annotations(a.annotations@, b.annotations@)
    &&& a.parameters@.len() == b.parameters@.len()
    &&& forall|i: int| 0 <= i < a.parameters@.len() ==> same_param(#[trigger] a.parameters@[i], b.parameters@[i])
}

/// The same methods, position by position.
pub open spec fn same_methods(a: Seq<Method>, b: Seq<Method>) -> bool {
    a.len() == b.len() && forall|i: int| 0 <= i < a.len() ==> same_method(#[trigger] a[i], b[i])
}

/// The same class, member by member.
pub open spec fn same_class(a: JavaClass, b: JavaClass) -> bool {
    &&& a.class_name == b.class_name
    &&& a.package == b.package
    &&& a.imports@ == b.imports@
    &&& same_types(a.implements@, b.implements@)
    &&& same_annotations(a.class_annotations@, b.class_annotations@)
    &&& same_fields(a.fields@, b.fields@)
    &&& same_methods(a.methods@, b.methods@)
    &&& same_generics(a.generic_params, b.generic_params)
    &&& a.class_modifiers@ == b.class_modifiers@
    &&& same_opt_type(a.superclass, b.superclass)
}

pub fn copy_strings(v: &Vec<String>) -> (r: Vec<String>)
    ensures
        r@ == v@,
{
    let mut r: Vec<String> = Vec::new();
    let mut i: usize = 0;
    while i < v.len()
        invariant
            0 <= i <= v.len(),
            r@ == v@.take(i as int),
        decreases v.len() - i,
    {
        r.push(v[i].clone());
        assert(r@ =~= v@.take(i as int + 1));
        i = i + 1;
    }
    assert(r@ =~= v@);
    r
}

pub fn copy_generics(g: &GenericParams) -> (r: GenericParams)
    ensures
        same_generics(r, *g),
{
    GenericParams { generics: copy_strings(&g.generics) }
}

pub fn copy_type(t: &TypeName) -> (r: TypeName)
    ensures
        same_type(r, *t),
{
    let generic_params = match &t.generic_params {
        Some(g) => Some(copy_generics(g)),
        None => None,
    };
    TypeName { name: t.name.clone(), generic_params }
}

fn copy_opt_type(t: &Option<TypeName>) -> (r: Option<TypeName>)
    ensures
        same_opt_type(r, *t),
{
    match t {
        Some(s) => Some(copy_type(s)),
        None => None,
    }
}

fn copy_types(v: &Vec<TypeName>) -> (r: Vec<TypeName>)
    ensures
        same_types(r@, v@),
{
    let mut r: Vec<TypeName> = Vec::new();
    let mut i: usize = 0;
    while i < v.len()
        invariant
            0 <= i <= v.len(),
            r@.len() == i,
            forall|j: int| 0 <= j < i ==> same_type(#[trigger] r@[j], v@[j]),
        decreases v.len() - i,
    {
        r.push(copy_type(&v[i]));
        i = i + 1;
    }
    r
}

fn copy_pairs(v: &Vec<(String, String)>) -> (r: Vec<(String, String)>)
    ensures
        r@ == v@,
{
    let mut r: Vec<(String, String)> = Vec::new();
    let mut i: usize = 0;
    while i < v.len()
        invariant
            0 <= i <= v.len(),
            r@ == v@.take(i as int),
        decreases v.len() - i,
    {
        r.push((v[i].0.clone(), v[i].1.clone()));
        assert(r@ =~= v@.take(i as int + 1));
        i = i + 1;
    }
    assert(r@ =~= v@);
    r
}

pub fn copy_annotation(a: &Annotation) -> (r: Annotation)
    ensures
        same_annotation(r, *a),
{
    let params_list = match &a.params_list {
        Some(ps) => Some(copy_pairs(ps)),
        None => None,
    };
    Annotation { qualified_name: a.qualified_name.clone(), params_list }
}

pub fn copy_annotations(v: &Vec<Annotation>) -> (r: Vec<Annotation>)
    ensures
        same_annotations(r@, v@),
{
    let mut r: Vec<Annotation> = Vec::new();
    let mut i: usize = 0;
    while i < v.len()
        invariant
            0 <= i <= v.len(),
            r@.len() == i,
            forall|j: int| 0 <= j < i ==> same_annotation(#[trigger] r@[j], v@[j]),
        decreases v.len() - i,
    {
        r.push(copy_annotation(&v[i]));
        i = i + 1;
    }
    r
}

pub fn copy_imports(v: &Vec<Import>) -> (r: Vec<Import>)
    ensures
        r@ == v@,
{
    let mut r: Vec<Import> = Vec::new();
    let mut i: usize = 0;
    while i < v.len()
        invariant
            0 <= i <= v.len(),
            r@ == v@.take(i as int),
        decreases v.len() - i,
    {
        let imp = &v[i];
        r.push(Import {
            class_name: imp.class_name.clone(),
            package_name: imp.package_name.clone(),
            static_import: imp.static_import,
        });
        assert(r@ =~= v@.take(i as int + 1));
        i = i + 1;
    }
    assert(r@ =~= v@);
    r
}

fn copy_modifiers(v: &Vec<crate::modifiers::AccessModifiers>) -> (r: Vec<crate::modifiers::AccessModifiers>)
    ensures
        r@ == v@,
{
    let mut r: Vec<crate::modifiers::AccessModifiers> = Vec::new();
    let mut i: usize = 0;
    while i < v.len()
        invariant
            0 <= i <= v.len(),
            r@ == v@.take(i as int),
        decreases v.len() - i,
    {
        r.push(v[i]);
        assert(r@ =~= v@.take(i as int + 1));
        i = i + 1;
    }
    assert(r@ =~= v@);
    r
}

pub fn copy_param(p: &VariableParam) -> (r: VariableParam)
    ensures
        same_param(r, *p),
{
    VariableParam {
        name: p.name.clone(),
        type_: copy_type(&p.type_),
        annotation: copy_annotations(&p.annotation),
    }
}

pub fn copy_field(f: &Field) -> (r: Field)
    ensures
        same_field(r, *f),
{
    let initializer = match &f.initializer {
        Some(i) => Some(i.clone()),
        None => None,
    };
    Field {
        annotation: copy_annotations(&f.annotation),
        modifiers: copy_modifiers(&f.modifiers),
        name: f.name.clone(),
        type_: copy_type(&f.type_),
        initializer,
    }
}

fn copy_fields(v: &Vec<Field>) -> (r: Vec<Field>)
    ensures
        same_fields(r@, v@),
{
    let mut r: Vec<Field> = Vec::new();
    let mut i: usize = 0;
    while i < v.len()
        invariant
            0 <= i <= v.len(),
            r@.len() == i,
            forall|j: int| 0 <= j < i ==> same_field(#[trigger] r@[j], v@[j]),
        decreases v.len() - i,
    {
        r.push(copy_field(&v[i]));
        i = i + 1;
    }
    r
}

pub fn copy_method(m: &Method) -> (r: Method)
    ensures
        same_method(r, *m),
{
    let mut parameters: Vec<VariableParam> = Vec::new();
    let mut i: usize = 0;
    while i < m.parameters.len()
        invariant
            0 <= i <= m.parameters.len(),
            parameters@.len() == i,
            forall|j: int| 0 <= j < i ==> same_param(#[trigger] parameters@[j], m.parameters@[j]),
        decreases m.parameters.len() - i,
    {
        parameters.push(copy_param(&m.parameters[i]));
        i = i + 1;
    }
    Method {
        annotations: copy_annotations(&m.annotations),
        modifiers: copy_modifiers(&m.modifiers),
        generics: copy_generics(&m.generics),
        parameters,
        return_type: copy_type(&m.return_type),
        code: m.code.clone(),
        name: m.name.clone(),
    }
}

fn copy_methods(v: &Vec<Method>) -> (r: Vec<Method>)
    ensures
        same_methods(r@, v@),
{
    let mut r: Vec<Method> = Vec::new();
    let mut i: usize = 0;
    while i < v.len()
        invariant
            0 <= i <= v.len(),
            r@.len() == i,
            forall|j: int| 0 <= j < i ==> same_method(#[trigger] r@[j], v@[j]),
        decreases v.len() - i,
    {
        r.push(copy_method(&v[i]));
        i = i + 1;
    }
    r
}

/// A copy of a class, member by member.
pub fn copy_class(c: &JavaClass) -> (r: JavaClass)
    ensures
        same_class(r, *c),
{
    JavaClass {
        imports: copy_imports(&c.imports),
        implements: copy_types(&c.implements),
        class_annotations: copy_annotations(&c.class_annotations),
        fields: copy_fields(&c.fields),
        methods: copy_methods(&c.methods),
        class_name: c.class_name.clone(),
        generic_params: copy_generics(&c.generic_params),
        class_modifiers: copy_modifiers(&c.class_modifiers),
        superclass: copy_opt_type(&c.superclass),
        package: c.package.clone(),
    }
}

} // verus!
