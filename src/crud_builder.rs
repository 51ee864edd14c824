use vstd::prelude::*;

use crate::annotations::Annotation;
use crate::classes::{field_inserted, JavaClass};
use crate::copies::{copy_class, same_annotations, same_fields, same_generics, same_methods, same_opt_type, same_types};
use crate::fields::Field;
use crate::imports::Import;
use crate::interfaces::Interface;
use crate::methods::{Method, VariableParam};
use crate::modifiers::AccessModifiers;
use crate::text::{lower_of, lowercase};
use crate::types::{GenericParams, TypeName};

verus! {

/// Builds the Spring layers of one entity class: the entity itself, its JPA
/// repository, its service, its DTO and its REST controller.
pub struct CrudBuilder {
    pub for_class: JavaClass,
}

/// `r` keeps the generics, superclass and interfaces of `c`.
pub open spec fn keeps_shape(r: JavaClass, c: JavaClass) -> bool {
    &&& same_generics(r.generic_params, c.generic_params)
    &&& same_opt_type(r.superclass, c.superclass)
    &&& same_types(r.implements@, c.implements@)
}

/// `i` imports `class` from `package`, not statically.
pub open spec fn import_is(i: Import, package: Seq<char>, class: Seq<char>) -> bool {
    i.package_name@ == package && i.class_name@ == class && !i.static_import
}

/// `t` is named `name` and carries exactly the generic parameters `gens`.
pub open spec fn type_is(t: TypeName, name: Seq<char>, gens: Seq<Seq<char>>) -> bool {
    &&& t.name@ == name
    &&& t.generic_params is Some
    &&& t.generic_params->0.generics@.len() == gens.len()
    &&& forall|k: int| 0 <= k < gens.len() ==> (#[trigger] t.generic_params->0.generics@[k])@ == gens[k]
}

/// `a` is named `name` and has no parameter list.
pub open spec fn plain_annotation(a: Annotation, name: Seq<char>) -> bool {
    a.qualified_name@ == name && a.params_list is None
}

/// `a` is named `name` with the single pair `key = value`.
pub open spec fn annotation_with(a: Annotation, name: Seq<char>, key: Seq<char>, value: Seq<char>) -> bool {
    &&& a.qualified_name@ == name
    &&& a.params_list is Some
    &&& a.params_list->0@.len() == 1
    &&& a.params_list->0@[0].0@ == key
    &&& a.params_list->0@[0].1@ == value
}

/// The `@Id @GeneratedValue(strategy = GenerationType.IDENTITY) private Long id` field.
pub open spec fn is_id_field(f: Field) -> bool {
    &&& f.name@ == "id"@
    &&& f.type_.name@ == "Long"@
    &&& f.type_.generic_params is None
    &&& f.modifiers@ == seq![AccessModifiers::Private]
    &&& f.initializer is None
    &&& f.annotation@.len() == 2
    &&& plain_annotation(f.annotation@[0], "Id"@)
    &&& annotation_with(f.annotation@[1], "GeneratedValue"@, "strategy"@, "GenerationType.IDENTITY"@)
}

/// A field inserted by name ends up in the list.
pub proof fn lemma_inserted_field_present(fs: Seq<Field>, f: Field, added: Seq<Field>)
    requires
        field_inserted(fs, f, added),
    ensures
        exists|k: int| 0 <= k < added.len() && added[k] == f,
{
    if forall|j: int| 0 <= j < fs.len() ==> fs[j].name@ != f.name@ && added == fs.push(f) {
        assert(added[fs.len() as int] == f);
    } else {
        let i = choose|i: int|
            0 <= i < fs.len() && fs[i].name@ == f.name@ && (forall|j: int|
                0 <= j < i ==> fs[j].name@ != f.name@) && added == fs.update(i, f);
        assert(added[i] == f);
    }
}

fn concat(a: &str, b: &str) -> (r: String)
    ensures
        r@ == a@ + b@,
{
    let mut out = String::from_str(a);
    out.append(b);
    out
}

fn typed(name: String, generics: Vec<String>) -> (r: TypeName)
    ensures
        r.name@ == name@,
        r.generic_params is Some,
        r.generic_params->0.generics@ == generics@,
{
    TypeName::new_with_generics(name, GenericParams::new(generics))
}

/// The field that holds a value of type `t`: named after the type in lower
/// case, with no modifier.
pub fn field_of_type(t: TypeName) -> (r: Field)
    ensures
        r.name@ == lower_of(t.name@),
        r.type_ == t,
        r.modifiers@.len() == 0,
        r.annotation@.len() == 0,
        r.initializer is None,
{
    let name = lowercase(t.name.as_str());
    let mut f = Field::n(name, t);
    f.modifiers = Vec::new();
    f
}

/// The parameter of type `t`, named after the type in lower case.
pub fn param_of_type(t: TypeName) -> (r: VariableParam)
    ensures
        r.name@ == lower_of(t.name@),
        r.type_ == t,
        r.annotation@.len() == 0,
{
    let name = lowercase(t.name.as_str());
    VariableParam::new(t, name)
}

/// The primary key field of an entity.
fn id_field_for_entity() -> (r: Field)
    ensures
        is_id_field(r),
{
    let id_annotation = Annotation::new(String::from_str("Id"));
    let id_annotation_strategy = Annotation::new(String::from_str("GeneratedValue")).param(
        String::from_str("strategy"),
        String::from_str("GenerationType.IDENTITY"),
    );
    let f = Field::n(String::from_str("id"), TypeName::new(String::from_str("Long"))).annotation(
        id_annotation,
    ).annotation(id_annotation_strategy);
    assert(f.annotation@[1].params_list->0@ =~= seq![
        (f.annotation@[1].params_list->0@[0].0, f.annotation@[1].params_list->0@[0].1),
    ]);
    f
}

/// The placeholder body of a generated REST handler.
pub open spec fn handler_body() -> Seq<char> {
    "\n            return null;\n    "@
}

/// `m` is a REST handler: named `name`, returning `ResponseEntity<generic>`,
/// annotated by `a` alone, with the placeholder body and no modifier.
pub open spec fn is_handler(m: Method, name: Seq<char>, generic: Seq<char>, a: Annotation) -> bool {
    &&& m.name@ == name
    &&& type_is(m.return_type, "ResponseEntity"@, seq![generic])
    &&& m.annotations@ == seq![a]
    &&& m.modifiers@.len() == 0
    &&& m.code@ == handler_body()
}

/// `p` is the `@PathVariable Long id` parameter.
pub open spec fn is_id_path_variable(p: VariableParam) -> bool {
    &&& p.name@ == "id"@
    &&& p.type_.name@ == "Long"@
    &&& p.type_.generic_params is None
    &&& p.annotation@.len() == 1
    &&& plain_annotation(p.annotation@[0], "PathVariable"@)
}

/// The `@PathVariable Long id` parameter of the handlers that address one
/// entity.
fn id_path_variable() -> (r: VariableParam)
    ensures
        is_id_path_variable(r),
{
    VariableParam::new(TypeName::new(String::from_str("Long")), String::from_str("id")).annotation(
        Annotation::new(String::from_str("PathVariable")),
    )
}

/// A `ResponseEntity<G>` handler named `name` with annotation `a`, returning
/// null for now.
fn handler(generic: String, name: String, a: Annotation) -> (r: Method)
    ensures
        r.name@ == name@,
        type_is(r.return_type, "ResponseEntity"@, seq![generic@]),
        r.annotations@ == seq![a],
        r.modifiers@.len() == 0,
        r.parameters@.len() == 0,
        r.code@ == handler_body(),
{
    let ghost g = generic@;
    let m = Method::new(typed(String::from_str("ResponseEntity"), vec![generic]), name).annotation(a).code(
        String::from_str("\n            return null;\n    "),
    );
    assert(m.return_type.generic_params->0.generics@[0]@ == g);
    m
}

impl CrudBuilder {
    pub fn new(jclass: JavaClass) -> (r: Self)
        ensures
            r.for_class == jclass,
    {
        Self { for_class: jclass }
    }

    /// The JPA repository interface `<C>Repository`, extending
    /// `JpaRepository<C,Long>` with `Optional<C> findById(Long id)`.
    pub fn jpa_repository_of(&self, cls_import: Import) -> (r: Interface)
        ensures
            r.name@ == self.for_class.class_name@ + "Repository"@,
            r.package@.len() == 0,
            r.modifier == AccessModifiers::Public,
            r.imports@.len() == 3,
            r.imports@[0] == cls_import,
            import_is(r.imports@[1], "java.util"@, "Optional"@),
            import_is(r.imports@[2], "org.springframework.data.jpa.repository"@, "JpaRepository"@),
            r.superclass is Some,
            type_is(r.superclass->0, "JpaRepository"@, seq![self.for_class.class_name@, "Long"@]),
            r.methods@.len() == 1,
            r.methods@[0].name@ == "findById"@,
            type_is(r.methods@[0].return_type, "Optional"@, seq![self.for_class.class_name@]),
            r.methods@[0].code@.len() == 0,
            r.methods@[0].modifiers@.len() == 0,
            r.methods@[0].parameters@.len() == 1,
            r.methods@[0].parameters@[0].name@ == "id"@,
            r.methods@[0].parameters@[0].type_.name@ == "Long"@,
    {
        let name = &self.for_class.class_name;
        let repo = Interface::new(String::new(), concat(name.as_str(), "Repository"));
        let find_by_id = Method::new(
            typed(String::from_str("Optional"), vec![name.clone()]),
            String::from_str("findById"),
        ).param(
            VariableParam::new(TypeName::new(String::from_str("Long")), String::from_str("id")),
        );
        let r = repo.public().import(cls_import).import(
            Import::new(String::from_str("java.util"), String::from_str("Optional")),
        ).import(
            Import::new(
                String::from_str("org.springframework.data.jpa.repository"),
                String::from_str("JpaRepository"),
            ),
        ).extends(typed(String::from_str("JpaRepository"), vec![name.clone(), String::from_str("Long")])).method(
            find_by_id,
        );
        assert(r.superclass->0.generic_params->0.generics@[0]@ == self.for_class.class_name@);
        assert(r.methods@[0].return_type.generic_params->0.generics@[0]@ == self.for_class.class_name@);
        r
    }

    /// The class as a JPA entity: the JPA and Lombok imports, the `@Data`,
    /// `@AllArgsConstructor`, `@NoArgsConstructor` and `@Entity` annotations,
    /// and a generated `id` field.
    pub fn spring_boot_entity(&self) -> (r: JavaClass)
        ensures
            r.class_name == self.for_class.class_name,
            r.package == self.for_class.package,
            r.class_modifiers@ == self.for_class.class_modifiers@,
            keeps_shape(r, self.for_class),
            same_methods(r.methods@, self.for_class.methods@),
            r.imports@.take(self.for_class.imports@.len() as int) == self.for_class.imports@,
            same_annotations(r.class_annotations@.take(self.for_class.class_annotations@.len() as int),
                self.for_class.class_annotations@),
            exists|fs: Seq<Field>, f: Field|
                #[trigger] field_inserted(fs, f, r.fields@) && same_fields(fs, self.for_class.fields@)
                    && is_id_field(f),
            r.imports@.len() == self.for_class.imports@.len() + 7,
            import_is(r.imports@[self.for_class.imports@.len() as int], "jakarta.persistence"@, "Entity"@),
            import_is(r.imports@[self.for_class.imports@.len() + 1int], "jakarta.persistence"@, "GeneratedValue"@),
            import_is(r.imports@[self.for_class.imports@.len() + 2int], "jakarta.persistence"@, "GenerationType"@),
            import_is(r.imports@[self.for_class.imports@.len() + 3int], "jakarta.persistence"@, "Id"@),
            import_is(r.imports@[self.for_class.imports@.len() + 4int], "lombok"@, "AllArgsConstructor"@),
            import_is(r.imports@[self.for_class.imports@.len() + 5int], "lombok"@, "Data"@),
            import_is(r.imports@[self.for_class.imports@.len() + 6int], "lombok"@, "NoArgsConstructor"@),
            r.class_annotations@.len() == self.for_class.class_annotations@.len() + 4,
            plain_annotation(r.class_annotations@[self.for_class.class_annotations@.len() as int], "Data"@),
            plain_annotation(r.class_annotations@[self.for_class.class_annotations@.len() + 1int], "AllArgsConstructor"@),
            plain_annotation(r.class_annotations@[self.for_class.class_annotations@.len() + 2int], "NoArgsConstructor"@),
            plain_annotation(r.class_annotations@.last(), "Entity"@),
            exists|k: int| 0 <= k < r.fields@.len() && is_id_field(#[trigger] r.fields@[k]),
    {
        let jclass = copy_class(&self.for_class);
        let ghost jclass_annotations = jclass.class_annotations@;
        let lombok_annots = vec![
            Annotation::new(String::from_str("Data")),
            Annotation::new(String::from_str("AllArgsConstructor")),
            Annotation::new(String::from_str("NoArgsConstructor")),
        ];
        let with_imports = jclass.import(
            Import::new(String::from_str("jakarta.persistence"), String::from_str("Entity")),
        ).import(
            Import::new(String::from_str("jakarta.persistence"), String::from_str("GeneratedValue")),
        ).import(
            Import::new(String::from_str("jakarta.persistence"), String::from_str("GenerationType")),
        ).import(Import::new(String::from_str("jakarta.persistence"), String::from_str("Id"))).import(
            Import::new(String::from_str("lombok"), String::from_str("AllArgsConstructor")),
        ).import(Import::new(String::from_str("lombok"), String::from_str("Data"))).import(
            Import::new(String::from_str("lombok"), String::from_str("NoArgsConstructor")),
        );
        let annotated = with_imports.annotations(lombok_annots).annotation(
            Annotation::new(String::from_str("Entity")),
        );
        let id = id_field_for_entity();
        let ghost before = annotated.fields@;
        let entity = annotated.field(id);
        proof {
            lemma_inserted_field_present(before, id, entity.fields@);
            assert(field_inserted(before, id, entity.fields@));
            let n = self.for_class.imports@.len() as int;
            assert(entity.imports@.take(n) =~= self.for_class.imports@);
            let m = self.for_class.class_annotations@.len() as int;
            assert(entity.class_annotations@.take(m) =~= jclass_annotations);
        }
        entity
    }

    /// The DTO class `<C>DTO`: the class renamed, importing the class, with a
    /// public constructor that takes the entity.
    pub fn dto_from_class(&self, class_import: Import) -> (r: JavaClass)
        ensures
            r.class_name@ == self.for_class.class_name@ + "DTO"@,
            r.package == self.for_class.package,
            r.class_modifiers@ == self.for_class.class_modifiers@,
            keeps_shape(r, self.for_class),
            same_annotations(r.class_annotations@, self.for_class.class_annotations@),
            same_fields(r.fields@, self.for_class.fields@),
            r.imports@.take(self.for_class.imports@.len() as int) == self.for_class.imports@,
            same_methods(r.methods@.take(self.for_class.methods@.len() as int), self.for_class.methods@),
            r.methods@.last().code@.len() == 0,
            r.imports@.len() == self.for_class.imports@.len() + 1,
            r.imports@.last() == class_import,
            r.methods@.len() == self.for_class.methods@.len() + 1,
            r.methods@.last().name@ == r.class_name@,
            r.methods@.last().return_type.name@.len() == 0,
            r.methods@.last().modifiers@ == seq![AccessModifiers::Public],
            r.methods@.last().parameters@.len() == 1,
            r.methods@.last().parameters@[0].type_.name@ == self.for_class.class_name@,
            r.methods@.last().parameters@[0].name@ == lower_of(self.for_class.class_name@),
    {
        let initial = &self.for_class.class_name;
        let name = concat(initial.as_str(), "DTO");
        let copy = copy_class(&self.for_class);
        let ghost methods = copy.methods@;
        let dto = copy.class_name(name.clone()).import(class_import);
        let ctor = Method::new(TypeName::new(String::new()), name).public().param(
            VariableParam::new(TypeName::new(initial.clone()), lowercase(initial.as_str())),
        );
        let r = dto.method(ctor);
        assert(r.imports@.take(self.for_class.imports@.len() as int) =~= self.for_class.imports@);
        assert(r.methods@.take(self.for_class.methods@.len() as int) =~= methods);
        r
    }

    /// The service class `<C>Service`: annotated `@Service`, public, with an
    /// autowired repository field and constructor.
    pub fn service_from_class(&self, jpa_import: Import) -> (r: JavaClass)
        ensures
            r.class_name@ == self.for_class.class_name@ + "Service"@,
            r.package == self.for_class.package,
            keeps_shape(r, self.for_class),
            same_annotations(r.class_annotations@.take(self.for_class.class_annotations@.len() as int),
                self.for_class.class_annotations@),
            exists|fs: Seq<Field>, f: Field|
                #[trigger] field_inserted(fs, f, r.fields@) && same_fields(fs, self.for_class.fields@)
                    && f.name@ == "repository"@ && f.type_.name@ == self.for_class.class_name@ + "Repository"@,
            same_methods(r.methods@.take(self.for_class.methods@.len() as int), self.for_class.methods@),
            r.imports@.take(self.for_class.imports@.len() as int) == self.for_class.imports@,
            r.class_modifiers@ == self.for_class.class_modifiers@.push(AccessModifiers::Public),
            r.class_annotations@.len() == self.for_class.class_annotations@.len() + 1,
            plain_annotation(r.class_annotations@.last(), "Service"@),
            exists|k: int|
                0 <= k < r.fields@.len() && (#[trigger] r.fields@[k]).name@ == "repository"@
                    && r.fields@[k].type_.name@ == self.for_class.class_name@ + "Repository"@
                    && r.fields@[k].modifiers@ == seq![AccessModifiers::Private]
                    && r.fields@[k].annotation@.len() == 1
                    && plain_annotation(r.fields@[k].annotation@[0], "Autowired"@),
            r.methods@.len() == self.for_class.methods@.len() + 1,
            r.methods@.last().name@ == r.class_name@,
            r.methods@.last().return_type.name@.len() == 0,
            r.methods@.last().modifiers@ == seq![AccessModifiers::Public],
            r.methods@.last().annotations@.len() == 1,
            plain_annotation(r.methods@.last().annotations@[0], "Autowired"@),
            r.methods@.last().parameters@.len() == 1,
            r.methods@.last().parameters@[0].name@ == "repository"@,
            r.methods@.last().parameters@[0].type_.name@ == self.for_class.class_name@ + "Repository"@,
            r.imports@.len() == self.for_class.imports@.len() + 3,
            r.imports@[self.for_class.imports@.len() as int] == jpa_import,
            import_is(r.imports@[self.for_class.imports@.len() + 1int],
                "org.springframework.beans.factory.annotation"@, "Autowired"@),
            import_is(r.imports@[self.for_class.imports@.len() + 2int], "org.springframework.stereotype"@,
                "Service"@),
    {
        let initial = &self.for_class.class_name;
        let service_name = concat(initial.as_str(), "Service");
        let repo_name = concat(initial.as_str(), "Repository");
        let copy = copy_class(&self.for_class);
        let ghost (anns0, methods0) = (copy.class_annotations@, copy.methods@);
        let mut service = copy.class_name(service_name.clone());
        service = service.annotation(Annotation::new(String::from_str("Service")));
        let repo_field = Field::n(String::from_str("repository"), TypeName::new(repo_name.clone())).annotation(
            Annotation::autowired(),
        );
        let ghost before = service.fields@;
        let ghost f = repo_field;
        service = service.field(repo_field);
        proof {
            lemma_inserted_field_present(before, f, service.fields@);
        }
        service = service.method(
            Method::new(TypeName::new(String::new()), service_name).public().annotation(
                Annotation::autowired(),
            ).param(VariableParam::new(TypeName::new(repo_name), String::from_str("repository"))),
        );
        let r = service.public().import(jpa_import).import(
            Import::new(
                String::from_str("org.springframework.beans.factory.annotation"),
                String::from_str("Autowired"),
            ),
        ).import(Import::new(String::from_str("org.springframework.stereotype"), String::from_str("Service")));
        proof {
            let k = choose|k: int| 0 <= k < r.fields@.len() && r.fields@[k] == f;
            assert(r.fields@[k].name@ == "repository"@);
            assert(r.fields@[k].annotation@.len() == 1);
            assert(field_inserted(before, f, r.fields@));
            assert(r.class_annotations@.take(anns0.len() as int) =~= anns0);
            assert(r.methods@.take(methods0.len() as int) =~= methods0);
            assert(r.imports@.take(self.for_class.imports@.len() as int) =~= self.for_class.imports@);
        }
        r
    }

    /// The REST controller `<C>Controller` with create, update, delete,
    /// get-all and get-by-id handlers, a service field and a constructor.
    pub fn controller_from_class(&self, service_import: Import, dto_import: Import) -> (r: JavaClass)
        ensures
            r.class_name@ == self.for_class.class_name@ + "Controller"@,
            r.package@.len() == 0,
            r.class_modifiers@.len() == 0,
            r.superclass is None,
            r.implements@.len() == 0,
            r.generic_params.generics@.len() == 0,
            r.methods@.len() == 6,
            is_handler(r.methods@[0], "create"@ + self.for_class.class_name@,
                self.for_class.class_name@ + "DTO"@, r.methods@[0].annotations@[0]),
            plain_annotation(r.methods@[0].annotations@[0], "PostMapping"@),
            r.methods@[0].parameters@.len() == 0,
            is_handler(r.methods@[1], "update"@ + self.for_class.class_name@,
                self.for_class.class_name@ + "DTO"@, r.methods@[1].annotations@[0]),
            annotation_with(r.methods@[1].annotations@[0], "PutMapping"@, "value"@, "\"/{id}\""@),
            r.methods@[1].parameters@.len() == 1,
            is_id_path_variable(r.methods@[1].parameters@[0]),
            is_handler(r.methods@[2], "delete"@ + self.for_class.class_name@, "Void"@,
                r.methods@[2].annotations@[0]),
            annotation_with(r.methods@[2].annotations@[0], "DeleteMapping"@, "value"@, "\"/{id}\""@),
            r.methods@[2].parameters@.len() == 1,
            is_id_path_variable(r.methods@[2].parameters@[0]),
            is_handler(r.methods@[3], "getAll"@ + self.for_class.class_name@ + "s"@,
                "List<"@ + self.for_class.class_name@ + "DTO>"@, r.methods@[3].annotations@[0]),
            plain_annotation(r.methods@[3].annotations@[0], "GetMapping"@),
            r.methods@[3].parameters@.len() == 0,
            is_handler(r.methods@[4], "get"@ + self.for_class.class_name@ + "ById"@,
                self.for_class.class_name@ + "DTO"@, r.methods@[4].annotations@[0]),
            annotation_with(r.methods@[4].annotations@[0], "GetMapping"@, "value"@, "\"/{id}\""@),
            r.methods@[4].parameters@.len() == 1,
            is_id_path_variable(r.methods@[4].parameters@[0]),
            r.methods@[5].name@ == r.class_name@,
            r.methods@[5].return_type.name@.len() == 0,
            r.methods@[5].code@.len() == 0,
            r.methods@[5].modifiers@.len() == 0,
            r.methods@[5].parameters@.len() == 1,
            r.methods@[5].parameters@[0].name@ == lower_of(self.for_class.class_name@ + "Service"@),
            r.methods@[5].parameters@[0].type_.name@ == self.for_class.class_name@ + "Service"@,
            r.imports@.len() == 6,
            import_is(r.imports@[0], "org.springframework.http"@, "HttpStatus"@),
            import_is(r.imports@[1], "org.springframework.http"@, "ResponseEntity"@),
            import_is(r.imports@[2], "org.springframework.web.bind.annotation"@, "*"@),
            r.imports@[3] == service_import,
            r.imports@[4] == dto_import,
            import_is(r.imports@[5], "java.util"@, "List"@),
            r.class_annotations@.len() == 2,
            plain_annotation(r.class_annotations@[0], "RestController"@),
            annotation_with(r.class_annotations@[1], "RequestMapping"@, "value"@,
                "\"/"@ + lower_of(self.for_class.class_name@) + "\""@),
            r.fields@.len() == 1,
            r.fields@[0].name@ == lower_of(self.for_class.class_name@ + "Service"@),
            r.fields@[0].type_.name@ == self.for_class.class_name@ + "Service"@,
            r.fields@[0].modifiers@.len() == 0,
    {
        let initial = &self.for_class.class_name;
        let controller_name = concat(initial.as_str(), "Controller");
        proof {
            reveal_strlit("Controller");
        }
        let mut controller = JavaClass::new(controller_name.clone(), String::new());
        let dto_name = concat(initial.as_str(), "DTO");
        let id_path = String::from_str("\"/{id}\"");
        let post = handler(
            dto_name.clone(),
            concat("create", initial.as_str()),
            Annotation::new(String::from_str("PostMapping")),
        );
        let mut get_by_id_name = concat("get", initial.as_str());
        get_by_id_name.append("ById");
        let get_by_id = handler(
            dto_name.clone(),
            get_by_id_name,
            Annotation::new(String::from_str("GetMapping")).param(String::from_str("value"), id_path.clone()),
        ).param(id_path_variable());
        let mut list_of = concat("List<", initial.as_str());
        list_of.append("DTO>");
        let mut get_all_name = concat("getAll", initial.as_str());
        get_all_name.append("s");
        let get_all = handler(
            list_of,
            get_all_name,
            Annotation::new(String::from_str("GetMapping")),
        );
        let update = handler(
            dto_name,
            concat("update", initial.as_str()),
            Annotation::new(String::from_str("PutMapping")).param(String::from_str("value"), id_path.clone()),
        ).param(id_path_variable());
        let delete = handler(
            String::from_str("Void"),
            concat("delete", initial.as_str()),
            Annotation::new(String::from_str("DeleteMapping")).param(String::from_str("value"), id_path),
        ).param(id_path_variable());
        controller = controller.method(post).method(update).method(delete).method(get_all).method(
            get_by_id,
        );
        let spring_imports = vec![
            Import::new(String::from_str("org.springframework.http"), String::from_str("HttpStatus")),
            Import::new(String::from_str("org.springframework.http"), String::from_str("ResponseEntity")),
            Import::new(String::from_str("org.springframework.web.bind.annotation"), String::from_str("*")),
        ];
        controller = controller.imports(spring_imports);
        controller = controller.import(service_import).import(dto_import).import(
            Import::new(String::from_str("java.util"), String::from_str("List")),
        );
        let mut mapping = String::from_str("\"/");
        let lower = lowercase(initial.as_str());
        mapping.append(lower.as_str());
        mapping.append("\"");
        controller = controller.annotation(Annotation::new(String::from_str("RestController"))).annotation(
            Annotation::new(String::from_str("RequestMapping")).param(String::from_str("value"), mapping),
        );
        let service_type = TypeName::new(concat(initial.as_str(), "Service"));
        let service_field = field_of_type(TypeName::new(concat(initial.as_str(), "Service")));
        controller = controller.field(service_field);
        let constructor = Method::new(TypeName::new(String::new()), controller_name).param(
            param_of_type(service_type),
        ).code(String::new());
        controller = controller.method(constructor);
        assert(controller.class_annotations@[1].params_list->0@ =~= seq![
            (controller.class_annotations@[1].params_list->0@[0].0,
            controller.class_annotations@[1].params_list->0@[0].1),
        ]);
        controller
    }
}

} // verus!
