use java_builder::annotations::Annotation;
use java_builder::classes::JavaClass;
use java_builder::crud_builder::{field_of_type, CrudBuilder};
use java_builder::enums::JavaEnum;
use java_builder::fields::Field;
use java_builder::imports::Import;
use java_builder::interfaces::Interface;
use java_builder::maven_builder::{capitalize, MavenCodebase};
use java_builder::methods::Method;
use java_builder::modifiers::AccessModifiers::{Abstract, Final, Private, Protected, Public, Static};
use java_builder::modifiers::{modifiers_are_valid, AccessModifiers};
use java_builder::output::OutputDirs;
use java_builder::pom_xml::{Generate, Library, PomXml, ProjectInfo};
use java_builder::types::{GenericParams, TypeName};
use java_builder::{Codegen, VariableParam};
use tree_sitter::Parser;

fn assert_parses(java_str: &str) {
    let mut parser = Parser::new();
    parser
        .set_language(&tree_sitter_java::LANGUAGE.into())
        .expect("Error loading java grammar");
    let tree = parser.parse(java_str, None).unwrap();
    assert!(!tree.root_node().has_error(), "does not parse:\n{}", java_str);
}

fn t(name: &str) -> TypeName {
    TypeName::new(name.to_owned())
}

fn info(name: &str) -> ProjectInfo {
    ProjectInfo {
        name: name.to_owned(),
        version: "".to_owned(),
        group_id: "org.x".to_owned(),
        artifact_id: "app".to_owned(),
        description: "d".to_owned(),
    }
}

#[test]
fn modifiers_render_in_canonical_order_once_each() {
    let ms = vec![Static, Final, Public, Abstract, Static];
    assert_eq!(ms.generate_code(), "public abstract final static ");
    let reordered = vec![Abstract, Public, Static, Final, Final];
    assert_eq!(reordered.generate_code(), ms.generate_code());
    assert_eq!(vec![Private, Final].generate_code(), "private final ");
    assert_eq!(vec![Static, Protected].generate_code(), "protected static ");
    assert_eq!(Vec::<AccessModifiers>::new().generate_code(), "");
}

#[test]
fn conflicting_access_modifiers_are_invalid() {
    assert!(!modifiers_are_valid(&vec![Protected, Public]));
    assert!(!modifiers_are_valid(&vec![Private, Public]));
    assert!(!modifiers_are_valid(&vec![Protected, Static, Private]));
    assert!(modifiers_are_valid(&vec![Public, Static, Public]));
    assert!(modifiers_are_valid(&vec![]));
}

#[test]
fn modifier_keywords_and_default() {
    assert_eq!(AccessModifiers::default(), AccessModifiers::Public);
    assert_eq!(AccessModifiers::Protected.keyword(), "protected");
    assert!(AccessModifiers::Public.rank() > AccessModifiers::Abstract.rank());
    assert!(AccessModifiers::Abstract.rank() > AccessModifiers::Final.rank());
    assert!(AccessModifiers::Final.rank() > AccessModifiers::Static.rank());
}

#[test]
fn imports_render_exactly() {
    let plain = Import::new("java.util".to_owned(), "List".to_owned());
    let stat = Import::new("java.util".to_owned(), "StringJoiner".to_owned()).static_();
    assert_eq!(plain.generate_code(), "import java.util.List;\n");
    assert_eq!(stat.generate_code(), "import static java.util.StringJoiner;\n");
    let both = vec![plain.clone(), stat, plain];
    assert_eq!(
        both.generate_code(),
        "\nimport java.util.List;\nimport static java.util.StringJoiner;\nimport java.util.List;\n"
    );
    assert_eq!(Vec::<Import>::new().generate_code(), "\n");
}

#[test]
fn annotations_render_exactly() {
    let a = Annotation::new("XmlRootElement".to_owned())
        .param("name".to_owned(), "phone-number".to_owned())
        .params(vec![("ns".to_owned(), "x".to_owned())]);
    assert_eq!(a.generate_code(), "@XmlRootElement(\nname = phone-number\nns = x\n)\n");
    assert!(a.generate_code().ends_with('\n'));
    assert_eq!(Annotation::autowired().generate_code(), "@Autowired\n");
    assert_eq!(vec![Annotation::autowired()].generate_code(), "\n@Autowired\n");
    let only_params = Annotation::new("A".to_owned()).params(vec![("k".to_owned(), "v".to_owned())]);
    assert_eq!(only_params.generate_code(), "@A(\nk = v\n)\n");
}

#[test]
fn type_names_render_exactly() {
    let g = GenericParams::new(vec!["K".to_owned(), "V".to_owned()]);
    assert_eq!(g.generate_code(), "<K,V> ");
    assert_eq!(GenericParams::new(vec![]).generate_code(), "");
    assert_eq!(TypeName::new_with_generics("Map".to_owned(), g).generate_code(), "Map<K,V> ");
    assert_eq!(t("int").generate_code(), "int");
    let impls = vec![
        t("Serializable"),
        TypeName::new_with_generics("Comparable".to_owned(), GenericParams::new(vec!["T".to_owned()])),
    ];
    assert_eq!(impls.generate_code(), "implements Serializable, Comparable<T>  ");
    assert_eq!(Vec::<TypeName>::new().generate_code(), "");
}

#[test]
fn parameters_and_fields_render_exactly() {
    let ps = vec![
        VariableParam::new(t("String"), "a".to_owned()),
        VariableParam::new(t("int"), "b".to_owned()).annotation(Annotation::new("NotNull".to_owned())),
    ];
    assert_eq!(ps.generate_code(), "(String a,@NotNull\nint b)");
    assert_eq!(Vec::<VariableParam>::new().generate_code(), "()");
    let f = Field::n("age".to_owned(), t("int"));
    assert_eq!(f.generate_code(), "        private int age;\n");
    let g = Field::new("count".to_owned(), t("long"), AccessModifiers::Public)
        .annotation(Annotation::autowired());
    assert_eq!(g.generate_code(), "    @Autowired\n    public long count;\n");
    let mut h = Field::n("x".to_owned(), t("int"));
    h.initializer = Some("5".to_owned());
    assert_eq!(h.generate_code(), "        private int x;\n = 5");
}

#[test]
fn method_body_is_indented_line_by_line() {
    let m = Method::new(t("void"), "run".to_owned())
        .public()
        .code("a();\r\nb();\n\nc();".to_owned());
    assert_eq!(m.generate_code(), "public void run(){\n\ta();\n\tb();\n\t\n\tc();\n}\n");
    let trailing = Method::new(t("void"), "run".to_owned()).code("x();\n".to_owned());
    assert_eq!(trailing.generate_code(), "void run(){\n\tx();\n}\n");
    let empty = Method::new(t("void"), "run".to_owned()).static_();
    assert_eq!(empty.generate_code(), "static void run(){}\n");
}

#[test]
fn abstract_method_has_no_braces_and_no_body() {
    let m = Method::new(t("void"), "greet".to_owned()).abstract_().public();
    assert!(m.is_valid());
    let code = m.generate_code();
    assert_eq!(code, "public abstract void greet();\n");
    assert!(!code.contains('{'));
    let with_body = Method::new(t("void"), "Greeting".to_owned())
        .abstract_()
        .code("System.out.println('Hello World');".to_owned());
    assert!(!with_body.is_valid());
    let bad_mods = Method::new(t("void"), "f".to_owned()).public().private();
    assert!(!bad_mods.is_valid());
}

#[test]
fn minimal_class_renders_exactly() {
    let c = JavaClass::new("A".to_owned(), "p".to_owned()).public();
    assert!(c.is_valid());
    assert_eq!(c.generate_code(), "package p;\n\n\n\npublic class A{\n\n}\n");
    let unset = JavaClass::new("A".to_owned(), "".to_owned());
    assert!(!unset.is_valid());
    let mut later = unset.build();
    later.package_in_place("q".to_owned());
    assert!(later.is_valid());
    assert!(later.generate_code().starts_with("package q;\n"));
}

#[test]
fn class_with_superclass_generics_and_interfaces() {
    let c = JavaClass::new("Box".to_owned(), "p".to_owned())
        .final_()
        .public()
        .generic_param("T".to_owned())
        .extends(TypeName::new_with_generics(
            "Base".to_owned(),
            GenericParams::new(vec!["T".to_owned()]),
        ))
        .implements(t("Serializable"))
        .annotation(Annotation::new("Data".to_owned()))
        .import(Import::new("java.io".to_owned(), "Serializable".to_owned()));
    let code = c.generate_code();
    assert_eq!(
        code,
        "package p;\n\n\nimport java.io.Serializable;\n\n\n@Data\npublic final class Box<T> extends Base<T>  implements Serializable {\n\n}\n"
    );
    assert_parses(&code);
}

#[test]
fn field_with_same_name_replaces_in_place() {
    let c = JavaClass::new("A".to_owned(), "p".to_owned())
        .field(Field::n("x".to_owned(), t("int")))
        .field(Field::n("y".to_owned(), t("int")))
        .field(Field::new("x".to_owned(), t("long"), AccessModifiers::Public));
    assert_eq!(c.fields.len(), 2);
    assert_eq!(c.fields[0].name, "x");
    assert_eq!(c.fields[0].type_.name, "long");
    assert_eq!(c.fields[1].name, "y");
    let code = c.generate_code();
    assert!(code.find("public long x;").unwrap() < code.find("private int y;").unwrap());
    assert!(!code.contains("int x;"));
}

#[test]
fn class_builders_append_in_order() {
    let c = JavaClass::new("A".to_owned(), "p".to_owned())
        .class_modifiers(vec![AccessModifiers::Static, AccessModifiers::Public])
        .imports(vec![
            Import::new("a".to_owned(), "B".to_owned()),
            Import::new("c".to_owned(), "D".to_owned()),
        ])
        .annotations(vec![Annotation::new("X".to_owned()), Annotation::new("Y".to_owned())])
        .method(Method::new(t("int"), "f".to_owned()))
        .method(Method::new(t("int"), "g".to_owned()))
        .class_name("B".to_owned())
        .package("r".to_owned());
    assert_eq!(c.class_name, "B");
    assert_eq!(c.package, "r");
    let code = c.generate_code();
    assert!(code.contains("import a.B;\nimport c.D;\n"));
    assert!(code.contains("\n@X\n\n@Y\npublic static class B{"));
    assert!(code.find("int f()").unwrap() < code.find("int g()").unwrap());
    assert_parses(&code);
}

#[test]
fn interface_renders_signatures_only() {
    let i = Interface::new("p".to_owned(), "I".to_owned())
        .method(Method::new(t("int"), "size".to_owned()));
    assert!(i.is_valid());
    assert_eq!(i.generate_code(), "package p;\n\npublic interface I {\n\tint size();\n}");
    let g = Interface::new("p".to_owned(), "J".to_owned())
        .protected()
        .method(Method::new(t("T"), "get".to_owned()).generic_param("T".to_owned()).public());
    assert_eq!(
        g.generate_code(),
        "package p;\n\nprotected interface J {\n\tpublic  <T>  T get();\n}"
    );
}

#[test]
fn interface_with_a_method_body_is_invalid() {
    let i = Interface::new("org.openapi.tools".to_owned(), "WithNonEmptyMethods".to_owned())
        .methods(vec![Method::new(t("void"), "addToList".to_owned())
            .code("System.out.println(\"Default Impl\")".to_owned())]);
    assert!(!i.is_valid());
}

#[test]
fn enum_renders_exactly() {
    let e = JavaEnum::new("E".to_owned(), "p".to_owned())
        .public()
        .types(vec![("A".to_owned(), "1".to_owned()), ("B".to_owned(), "2".to_owned())]);
    assert!(e.is_valid());
    assert_eq!(e.generate_code(), "package p;\n\n\npublic enum E { \n\tA(1),\n\tB(2);\n\n}");
    let empty = JavaEnum::new("E".to_owned(), "p".to_owned());
    assert_eq!(empty.generate_code(), "package p;\n\n\nenum E { \n\n}");
}

#[test]
fn generate_code_is_idempotent() {
    let c = JavaClass::new("A".to_owned(), "p".to_owned())
        .public()
        .field(Field::n("x".to_owned(), t("int")))
        .method(Method::new(t("void"), "f".to_owned()).code("g();".to_owned()));
    assert_eq!(c.generate_code(), c.generate_code());
    let i = Interface::new("p".to_owned(), "I".to_owned()).method(Method::new(t("int"), "f".to_owned()));
    assert_eq!(i.generate_code(), i.generate_code());
    let e = JavaEnum::new("E".to_owned(), "p".to_owned()).types(vec![("A".to_owned(), "1".to_owned())]);
    assert_eq!(e.generate_code(), e.generate_code());
}

#[test]
fn customer_class_renders_fields_in_order() {
    let pom = PomXml::new(info("TempContRvTool"))
        .group_id("org.javacodegen".to_owned())
        .artifact("rvtool".to_owned());
    let customer = JavaClass::new("Customer".to_owned(), pom.get_root_package() + "Customer")
        .public()
        .field(Field::n("firstName".to_owned(), t("String")))
        .field(Field::n("lastName".to_owned(), t("String")))
        .field(Field::n("email".to_owned(), t("String")))
        .field(Field::n("age".to_owned(), t("int")));
    let code = customer.generate_code();
    assert!(code.contains("package org.javacodegen.rvtoolCustomer;"));
    assert!(code.contains("class Customer"));
    assert!(code.contains("String firstName;"));
    assert!(code.contains("int age;"));
    assert!(!code.contains("final private"));
    assert!(!code.contains("static public"));
    assert_parses(&code);
}

#[test]
fn customer_repository_declares_its_methods() {
    let m1 = Method::new(
        TypeName::new_with_generics("List".to_owned(), GenericParams::new(vec!["Customer".to_owned()])),
        "findByLastName".to_owned(),
    )
    .param(VariableParam::new(t("String"), "lastName".to_owned()));
    let m2 = Method::new(t("Customer"), "findById".to_owned())
        .param(VariableParam::new(t("long"), "id".to_owned()));
    let repo = Interface::new("com.example.accessingdatajpa".to_owned(), "CustomerRepository".to_owned())
        .extends(TypeName::new_with_generics(
            "CrudRepository".to_owned(),
            GenericParams::new(vec!["Customer".to_owned(), "Long".to_owned()]),
        ))
        .methods(vec![m1.clone(), m2.clone()]);
    assert!(repo.is_valid());
    let code = repo.generate_code();
    assert!(code.contains("interface CustomerRepository"));
    assert!(code.contains("extends CrudRepository"));
    assert!(code.contains("findByLastName"));
    assert!(code.contains("findById"));
    assert_parses(&code);
    let with_body = repo.method(m2.code("return null;".to_owned()));
    assert!(!with_body.is_valid());
}

#[test]
fn template_file_type_enum_ends_constants_correctly() {
    let pairs = vec![
        ("API", "Constants.APIS"),
        ("Model", "Constants.MODELS"),
        ("APIDocs", "Constants.API_DOCS"),
        ("ModelDocs", "Constants.MODEL_DOCS"),
        ("APITests", "Constants.API_TESTS"),
        ("SupportingFiles", "Constants.SUPPORTING_FILES"),
    ];
    let e = JavaEnum::new("TemplateFileType".to_owned(), "org.openapitools.codegen.api".to_owned())
        .public()
        .types(pairs.iter().map(|(a, b)| (a.to_string(), b.to_string())).collect());
    let code = e.generate_code();
    assert!(code.contains("enum TemplateFileType"));
    let lines: Vec<&str> = code.lines().filter(|l| l.starts_with('\t')).collect();
    assert_eq!(lines.len(), 6);
    for (k, (name, value)) in pairs.iter().enumerate() {
        assert!(lines[k].contains(name));
        assert!(lines[k].contains(value));
        if k == 5 {
            assert!(lines[k].ends_with(';'));
        } else {
            assert!(lines[k].ends_with(','));
        }
    }
    assert_parses(&code);
}

#[test]
fn library_and_dependencies_render_exactly() {
    let l = Library::new_with_version("g".to_owned(), "a".to_owned(), "1".to_owned());
    assert_eq!(
        l.generate(),
        "<dependency>\n<groupId>g</groupId><artifactId>a</artifactId><version>1</version>\n</dependency>"
    );
    assert_eq!(
        Library::new("g".to_owned(), "a".to_owned()).generate(),
        "<dependency>\n<groupId>g</groupId><artifactId>a</artifactId>\n</dependency>"
    );
    assert_eq!(Vec::<Library>::new().generate(), "<dependencies>\n\n</dependencies>");
}

#[test]
fn spring_boot_preset_adds_parent_and_five_dependencies() {
    let pom = PomXml::new(info("Demo")).spring_boot();
    assert_eq!(pom.parent_pom.artifact_id, "spring-boot-starter-parent");
    let names: Vec<&str> = pom.dependencies.iter().map(|d| d.artifact_id.as_str()).collect();
    assert_eq!(
        names,
        vec![
            "spring-boot-starter-web",
            "lombok",
            "spring-boot-starter-data-jpa",
            "springdoc-openapi-starter-webmvc-ui",
            "springdoc-openapi-starter-webmvc-api"
        ]
    );
    let xml = pom.generate();
    assert!(xml.contains("<parent>\n<groupId>org.springframework.boot</groupId><artifactId>spring-boot-starter-parent</artifactId><version>3.4.1</version>\n</parent>"));
    let with_version = PomXml::new(info("Demo")).add_library_with_version(
        "art".to_owned(),
        "grp".to_owned(),
        "2".to_owned(),
    );
    assert_eq!(with_version.dependencies[0].group_id, "grp");
    assert_eq!(with_version.dependencies[0].artifact_id, "art");
    assert!(PomXml::new(info("Demo")).kafka().has_dependency_that(|d| d.artifact_id == "kafka"));
}

#[test]
fn application_properties_for_postgres_exactly() {
    let pom = PomXml::new(info("Demo")).postgresql();
    let mut m = MavenCodebase::new(pom, "out");
    assert_eq!(m.get_db_port(), 5432);
    assert_eq!(m.get_db_info().username, "demo");
    assert_eq!(m.get_db_info().db, "demo_db");
    assert_eq!(
        m.create_application_properties(),
        "spring.application.version=0.0.1\nspring.config.validate=true\nserver.address=localhost\nserver.port=8082\n\
spring.datasource.url=jdbc:postgresql://localhost:5432/demo_db\nspring.datasource.username=demo\n\
spring.datasource.password=demo\nspring.datasource.driver-class-name=org.postgresql.Driver\n\
spring.jpa.database-platform=org.hibernate.dialect.PostgreSQLDialect\nspring.jpa.hibernate.ddl-auto=update\n\
spring.jpa.show-sql=true\nspring.jpa.properties.hibernate.format_sql=true\n"
    );
}

#[test]
fn application_properties_skip_empty_values_and_show_actuator_once() {
    let pom = PomXml::new(info("")).postgresql().openapi();
    let mut m = MavenCodebase::new(pom, "out");
    let app = m.create_application_properties();
    assert!(!app.contains("spring.datasource.username"));
    assert!(app.contains("spring.datasource.url=jdbc:postgresql://localhost:5432/_db\n"));
    assert_eq!(app.matches("springdoc.show-actuator=true").count(), 1);
    assert!(app.contains("springdoc.api-docs.path=/api-docs\n"));
    assert!(app.contains("springdoc.swagger-ui.path=/docs.html\n"));
    let mut plain = MavenCodebase::new(PomXml::new(info("X")), "out");
    assert_eq!(
        plain.create_application_properties(),
        "spring.application.version=0.0.1\nspring.config.validate=true\nserver.address=localhost\nserver.port=8082\n"
    );
}

#[test]
fn output_folders_follow_the_package() {
    let d = OutputDirs::new("out".to_owned(), "org.x.app".to_owned())
        .models("models".to_owned())
        .dtos("dto".to_owned())
        .repos("repositories".to_owned())
        .services("services".to_owned())
        .controllers("controllers".to_owned());
    assert_eq!(d.code_folder(), "./out/src/main/java/org/x/app");
    assert_eq!(d.models_folder(), "./out/src/main/java/org/x/app/models");
    assert_eq!(d.dtos_folder(), "./out/src/main/java/org/x/app/dto");
    assert_eq!(d.repos_folder(), "./out/src/main/java/org/x/app/repositories");
    assert_eq!(d.services_folder(), "./out/src/main/java/org/x/app/services");
    assert_eq!(d.controllers_folder(), "./out/src/main/java/org/x/app/controllers");
    assert_eq!(d.tests_folder(), "./out/src/test/java/org/x/app");
    assert_eq!(d.resources_folder(), "./out/src/main/resources");
}

#[test]
fn capitalize_changes_only_the_first_character() {
    assert_eq!(capitalize("hello world"), "Hello world");
    assert_eq!(capitalize(""), "");
    assert_eq!(capitalize("élan"), "Élan");
    assert_eq!(capitalize("Abc"), "Abc");
}

#[test]
fn field_of_type_is_named_in_lower_case() {
    let f = field_of_type(t("CustomerService"));
    assert_eq!(f.name, "customerservice");
    assert!(f.modifiers.is_empty());
    assert_eq!(f.generate_code(), "        CustomerService customerservice;\n");
}

fn customer() -> JavaClass {
    JavaClass::new("Customer".to_owned(), "org.x.app".to_owned())
        .public()
        .field(Field::n("name".to_owned(), t("String")))
}

#[test]
fn crud_layers_for_an_entity() {
    let b = CrudBuilder::new(customer());
    let repo = b.jpa_repository_of(Import::new("org.x.app.models".to_owned(), "Customer".to_owned()));
    assert_eq!(repo.name, "CustomerRepository");
    let mut repo = repo;
    repo.package_in_place("org.x.app.repositories".to_owned());
    let repo_code = repo.generate_code();
    assert!(repo_code.contains("extends JpaRepository<Customer,Long>"));
    assert_parses(&repo_code);

    let entity = b.spring_boot_entity();
    let entity_code = entity.generate_code();
    assert!(entity_code.contains("@Entity"));
    assert!(entity_code.contains("private Long id;"));
    assert_parses(&entity_code);

    let service = b.service_from_class(Import::new(
        "org.x.app.repositories".to_owned(),
        "CustomerRepository".to_owned(),
    ));
    assert_eq!(service.class_name, "CustomerService");
    assert!(service.generate_code().contains("@Service"));

    let dto = b.dto_from_class(Import::new("org.x.app.models".to_owned(), "Customer".to_owned()));
    assert_eq!(dto.class_name, "CustomerDTO");
    assert!(dto.generate_code().contains("public  CustomerDTO(Customer customer)"));

    let mut controller = b.controller_from_class(
        Import::new("org.x.app.services".to_owned(), "CustomerService".to_owned()),
        Import::new("org.x.app.dto".to_owned(), "CustomerDTO".to_owned()),
    );
    assert_eq!(controller.class_name, "CustomerController");
    controller.package_in_place("org.x.app.controllers".to_owned());
    let code = controller.generate_code();
    for needle in [
        "@RestController",
        "@RequestMapping(\nvalue = \"/customer\"\n)\n",
        "@PostMapping",
        "@GetMapping",
        "@PutMapping",
        "@DeleteMapping",
        "createCustomer",
        "getAllCustomers",
        "getCustomerById",
        "CustomerService customerservice;",
    ] {
        assert!(code.contains(needle), "missing {:?} in\n{}", needle, code);
    }
}

#[test]
fn codebase_adds_entities_and_places_them_in_packages() {
    let pom = PomXml::new(info("demo")).spring_boot();
    let mut m = MavenCodebase::new(pom, "out").add_entities(vec![
        customer(),
        JavaClass::new("Order".to_owned(), "".to_owned()),
    ]);
    assert_eq!(m.entities.len(), 2);
    assert_eq!(m.entities[1].class_name, "Order");
    assert_eq!(m.services[0].class_name, "CustomerService");
    assert_eq!(m.jpa_repos[1].name, "OrderRepository");
    assert_eq!(m.dto_classes[0].class_name, "CustomerDTO");
    assert_eq!(m.controller_classes[1].class_name, "OrderController");
    m.put_classes_in_packages();
    assert_eq!(m.entities[0].package, "org.x.app.repositories");
    assert_eq!(m.services[1].package, "org.x.app.services");
    assert_eq!(m.jpa_repos[0].package, "org.x.app.repositories");
    assert_eq!(m.dto_classes[0].package, "org.x.app.dto");
    let main = m.create_spring_main_class();
    assert_eq!(main.class_name, "Demo");
    let code = main.generate_code();
    assert!(code.contains("SpringApplication.run(Demo.class,args);"));
    assert_parses(&code);
}

#[test]
fn declarations_convert_to_types_and_fields() {
    let generic = JavaClass::new("Box".to_owned(), "p".to_owned()).generic_param("T".to_owned());
    assert_eq!(generic.as_type().generate_code(), "Box<T> ");
    let plain = JavaClass::new("Customer".to_owned(), "p".to_owned());
    assert_eq!(plain.as_type().generate_code(), "Customer");
    assert_eq!(plain.as_field().generate_code(), "        Customer customer;\n");
    let e = JavaEnum::new("Color".to_owned(), "p".to_owned());
    assert_eq!(e.as_field().name, "color");
    let i = Interface::new("p".to_owned(), "Shape".to_owned());
    assert_eq!(i.as_type().name, "Shape");
    assert_eq!(i.as_field().name, "shape");
}

#[test]
fn interface_becomes_public_implementation_skeleton() {
    let i = Interface::new("p".to_owned(), "Repo".to_owned())
        .method(Method::new(t("int"), "count".to_owned()).abstract_())
        .method(Method::new(t("void"), "clear".to_owned()));
    let c = i.impl_class();
    assert_eq!(c.class_name, "RepoImpl");
    assert_eq!(c.package, "p");
    let code = c.generate_code();
    assert!(code.contains("class RepoImpl implements Repo {"));
    assert!(code.contains("public int count(){}"));
    assert!(code.contains("public void clear(){}"));
    assert_parses(&code);
}

#[test]
fn strings_convert_into_type_names_and_annotations() {
    let ty: TypeName = "String".to_owned().into();
    assert_eq!(ty.generate_code(), "String");
    assert!(ty.generic_params.is_none());
    let a: Annotation = "Entity".to_owned().into();
    assert_eq!(a.generate_code(), "@Entity\n");
}

#[test]
fn advisories_for_bare_classes() {
    let bare = JavaClass::new("A".to_owned(), "p".to_owned());
    assert_eq!(
        bare.advisories(),
        vec![
            "No imports found you might have forgotten them".to_owned(),
            "No class modifiers you might want to make your class public".to_owned()
        ]
    );
    let done = bare
        .public()
        .import(Import::new("java.util".to_owned(), "List".to_owned()));
    assert!(done.advisories().is_empty());
}

#[test]
fn identity_is_by_name() {
    let a = TypeName::new("List".to_owned());
    let b = TypeName::new_with_generics("List".to_owned(), GenericParams::new(vec!["T".to_owned()]));
    assert!(a == b);
    assert!(a != t("Set"));
    let x = Annotation::new("GetMapping".to_owned());
    let y = Annotation::new("GetMapping".to_owned()).param("value".to_owned(), "\"/\"".to_owned());
    assert!(x == y);
    assert!(Field::n("id".to_owned(), t("Long")) == Field::new("id".to_owned(), t("int"), AccessModifiers::Public));
    assert!(Field::n("id".to_owned(), t("Long")) != Field::n("key".to_owned(), t("Long")));
    assert!(Library::new("g".to_owned(), "a".to_owned()) == Library::new_with_version("h".to_owned(), "a".to_owned(), "1".to_owned()));
}

#[test]
fn class_name_is_separated_from_extends() {
    let c = JavaClass::new("Foo".to_owned(), "p".to_owned())
        .public()
        .extends(t("Bar"));
    let code = c.generate_code();
    assert!(code.contains("public class Foo extends Bar {"));
    assert_parses(&code);
    let both = c.implements(t("Baz"));
    assert!(both.generate_code().contains("class Foo extends Bar implements Baz {"));
}

#[test]
fn interface_renders_its_annotations() {
    let i = Interface::new("p".to_owned(), "Repo".to_owned())
        .annotation(Annotation::new("Repository".to_owned()));
    let code = i.generate_code();
    assert_eq!(code, "package p;\n\n\n@Repository\npublic interface Repo {\n}");
    assert_parses(&code);
}

#[test]
fn duplicate_field_names_make_a_class_invalid() {
    let mut c = JavaClass::new("A".to_owned(), "p".to_owned()).field(Field::n("x".to_owned(), t("int")));
    assert!(c.is_valid());
    c.fields.push(Field::n("x".to_owned(), t("long")));
    assert!(!c.is_valid());
}

#[test]
fn empty_generic_parameter_is_accepted() {
    let c = JavaClass::new("A".to_owned(), "p".to_owned()).generic_param("".to_owned());
    assert_eq!(c.generic_params.generics.len(), 1);
}

#[test]
fn database_settings_use_ascii_lowercase_and_exact_artifact_search() {
    let pom = PomXml::new(info("TempContRvTool")).add_library("org.x".to_owned(), "postgres".to_owned());
    let mut m = MavenCodebase::new(pom, "out");
    assert_eq!(m.get_db_info().username, "tempcontrvtool");
    assert_eq!(m.get_db_info().db, "tempcontrvtool_db");
    assert!(!m.create_application_properties().contains("spring.datasource"));
    let pom2 = PomXml::new(info("ÄB")).add_library("org.x".to_owned(), "my-postgresql-driver".to_owned());
    let mut m2 = MavenCodebase::new(pom2, "out");
    assert_eq!(m2.get_db_info().username, "Äb");
    assert!(m2.create_application_properties().contains("spring.datasource.url=jdbc:postgresql://localhost:5432/Äb_db\n"));
}

#[test]
fn generated_layers_keep_the_entity_members() {
    let c = customer().method(Method::new(t("String"), "greet".to_owned()).code("return name;".to_owned()));
    let b = CrudBuilder::new(c);
    let entity = b.spring_boot_entity().generate_code();
    assert!(entity.contains("private String name;"));
    assert!(entity.contains("String greet(){\n\treturn name;\n}"));
    let dto = b.dto_from_class(Import::new("p".to_owned(), "Customer".to_owned())).generate_code();
    assert!(dto.contains("private String name;"));
    assert!(dto.contains("String greet()"));
    let service = b.service_from_class(Import::new("p".to_owned(), "CustomerRepository".to_owned()));
    let code = service.generate_code();
    assert!(code.contains("private String name;"));
    assert!(code.contains("@Autowired\n    private CustomerRepository repository;"));
}
