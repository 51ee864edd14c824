use vstd::prelude::*;

pub use crate::text::capitalize;

use crate::classes::JavaClass;
use crate::crud_builder::{import_is, plain_annotation, CrudBuilder};
use crate::modifiers::AccessModifiers;
use crate::imports::Import;
use crate::interfaces::Interface;
use crate::methods::{Method, VariableParam};
use crate::output::{code_folder_of, OutputDirs};
use crate::pom_xml::{Library, PomXml};
use crate::text::{
    ascii_lower, ascii_lowercase, capitalized, contains_str, contains_sub, decimal,
    u16_to_string,
};
use crate::types::TypeName;

verus! {

/// How far the writing of a codebase has gone.
pub struct Progress {
    pub has_written_initial_files: bool,
    pub has_created_initial_folders: bool,
    pub has_created_application_properties: bool,
}

/// The database the generated application connects to.
#[derive(Clone)]
pub struct DBInfo {
    pub db_port: u16,
    pub username: String,
    pub password: String,
    pub db: String,
}

/// A Maven/Spring Boot codebase: its POM, folder layout, port, database
/// and the classes generated for each entity.
pub struct MavenCodebase {
    pub port: u16,
    pub db_info: DBInfo,
    pub root_folder: String,
    pub pom_xml: PomXml,
    pub out_dirs: OutputDirs,
    pub entities: Vec<JavaClass>,
    pub controller_classes: Vec<JavaClass>,
    pub dto_classes: Vec<JavaClass>,
    pub services: Vec<JavaClass>,
    pub jpa_repos: Vec<Interface>,
    pub progress: Progress,
}

/// The database of a project: port 5432; user, password and database named
/// after the project in ASCII lower case, the database with `_db` appended.
pub open spec fn db_info_for(name: Seq<char>, d: DBInfo) -> bool {
    &&& d.db_port == 5432
    &&& d.username@ == ascii_lower(name)
    &&& d.password@ == ascii_lower(name)
    &&& d.db@ == ascii_lower(name) + "_db"@
}

fn create_db_info(pom_xml: &PomXml) -> (r: DBInfo)
    ensures
        db_info_for(pom_xml.project_info.name@, r),
{
    let name = pom_xml.project_info.name.as_str();
    let mut db = ascii_lowercase(name);
    db.append("_db");
    DBInfo { db_port: 5432, username: ascii_lowercase(name), password: ascii_lowercase(name), db }
}

/// Some dependency's artifact id contains `postgresql`.
pub open spec fn uses_postgres(p: PomXml) -> bool {
    exists|i: int|
        0 <= i < p.dependencies@.len() && contains_sub(
            (#[trigger] p.dependencies@[i]).artifact_id@,
            "postgresql"@,
        )
}

/// Some dependency has exactly this artifact id.
pub open spec fn has_artifact(p: PomXml, artifact: Seq<char>) -> bool {
    exists|i: int| 0 <= i < p.dependencies@.len() && (#[trigger] p.dependencies@[i]).artifact_id@ == artifact
}

/// A `key=value` line, or nothing when the value is empty.
pub open spec fn property_line(key: Seq<char>, value: Seq<char>) -> Seq<char> {
    if value.len() == 0 {
        Seq::empty()
    } else {
        key + "="@ + value + "\n"@
    }
}

/// The datasource and JPA settings for PostgreSQL.
pub open spec fn postgres_properties(m: MavenCodebase) -> Seq<char> {
    property_line(
        "spring.datasource.url"@,
        "jdbc:postgresql://localhost:"@ + decimal(m.db_info.db_port as nat) + "/"@ + m.db_info.db@,
    ) + property_line("spring.datasource.username"@, m.db_info.username@) + property_line(
        "spring.datasource.password"@,
        m.db_info.password@,
    ) + property_line("spring.datasource.driver-class-name"@, "org.postgresql.Driver"@)
        + property_line("spring.jpa.database-platform"@, "org.hibernate.dialect.PostgreSQLDialect"@)
        + property_line("spring.jpa.hibernate.ddl-auto"@, "update"@) + property_line(
        "spring.jpa.show-sql"@,
        "true"@,
    ) + property_line("spring.jpa.properties.hibernate.format_sql"@, "true"@)
}

/// The `application.properties` text: version, validation, address and port;
/// the PostgreSQL settings when a dependency is PostgreSQL; the springdoc
/// paths for the API and UI starters, with `springdoc.show-actuator` once if
/// either is present. Each key occurs at most once.
pub open spec fn application_properties(m: MavenCodebase) -> Seq<char> {
    let api = has_artifact(m.pom_xml, "springdoc-openapi-starter-webmvc-api"@);
    let ui = has_artifact(m.pom_xml, "springdoc-openapi-starter-webmvc-ui"@);
    property_line("spring.application.version"@, "0.0.1"@) + property_line(
        "spring.config.validate"@,
        "true"@,
    ) + property_line("server.address"@, "localhost"@) + property_line(
        "server.port"@,
        decimal(m.port as nat),
    ) + (if uses_postgres(m.pom_xml) {
        postgres_properties(m)
    } else {
        Seq::empty()
    }) + (if api {
        property_line("springdoc.api-docs.path"@, "/api-docs"@)
    } else {
        Seq::empty()
    }) + (if ui {
        property_line("springdoc.swagger-ui.path"@, "/docs.html"@)
    } else {
        Seq::empty()
    }) + (if api || ui {
        property_line("springdoc.show-actuator"@, "true"@)
    } else {
        Seq::empty()
    })
}

fn push_property(out: &mut String, key: &str, value: &str)
    ensures
        final(out)@ == old(out)@ + property_line(key@, value@),
{
    if value.is_empty() {
        assert(final(out)@ =~= old(out)@ + property_line(key@, value@));
        return;
    }
    out.append(key);
    out.append("=");
    out.append(value);
    out.append("\n");
}

fn push_postgres_properties(out: &mut String, m: &MavenCodebase)
    ensures
        final(out)@ == old(out)@ + postgres_properties(*m),
{
    let mut url = String::from_str("jdbc:postgresql://localhost:");
    let db_port = u16_to_string(m.db_info.db_port);
    url.append(db_port.as_str());
    url.append("/");
    url.append(m.db_info.db.as_str());
    push_property(out, "spring.datasource.url", url.as_str());
    push_property(out, "spring.datasource.username", m.db_info.username.as_str());
    push_property(out, "spring.datasource.password", m.db_info.password.as_str());
    push_property(out, "spring.datasource.driver-class-name", "org.postgresql.Driver");
    push_property(out, "spring.jpa.database-platform", "org.hibernate.dialect.PostgreSQLDialect");
    push_property(out, "spring.jpa.hibernate.ddl-auto", "update");
    push_property(out, "spring.jpa.show-sql", "true");
    push_property(out, "spring.jpa.properties.hibernate.format_sql", "true");
    assert(final(out)@ =~= old(out)@ + postgres_properties(*m));
}

fn is_postgres(d: &Library) -> (b: bool)
    ensures
        b == contains_sub(d.artifact_id@, "postgresql"@),
{
    contains_str(d.artifact_id.as_str(), "postgresql")
}

fn is_openapi_api(d: &Library) -> (b: bool)
    ensures
        b == (d.artifact_id@ == "springdoc-openapi-starter-webmvc-api"@),
{
    d.artifact_id == String::from_str("springdoc-openapi-starter-webmvc-api")
}

fn is_openapi_ui(d: &Library) -> (b: bool)
    ensures
        b == (d.artifact_id@ == "springdoc-openapi-starter-webmvc-ui"@),
{
    d.artifact_id == String::from_str("springdoc-openapi-starter-webmvc-ui")
}

/// `moved` is `classes` with every package set to `package` and nothing else
/// changed.
pub open spec fn moved_to(classes: Seq<JavaClass>, moved: Seq<JavaClass>, package: Seq<char>) -> bool {
    &&& moved.len() == classes.len()
    &&& forall|k: int|
        0 <= k < moved.len() ==> (#[trigger] moved[k]) == (JavaClass { package: moved[k].package, ..classes[k] })
            && moved[k].package@ == package
}

/// The root package followed by `.` and a sub-package.
pub open spec fn sub_package(p: PomXml, sub: Seq<char>) -> Seq<char> {
    p.project_info.group_id@ + "."@ + p.project_info.artifact_id@ + "."@ + sub
}

impl MavenCodebase {
    /// The database settings.
    pub fn get_db_info(&self) -> (r: DBInfo)
        ensures
            r.db_port == self.db_info.db_port,
            r.username@ == self.db_info.username@,
            r.password@ == self.db_info.password@,
            r.db@ == self.db_info.db@,
    {
        DBInfo {
            db_port: self.db_info.db_port,
            username: self.db_info.username.clone(),
            password: self.db_info.password.clone(),
            db: self.db_info.db.clone(),
        }
    }

    pub fn get_db_port(&self) -> (r: u16)
        ensures
            r == self.db_info.db_port,
    {
        self.db_info.db_port
    }

    /// The text of `application.properties`.
    pub fn create_application_properties(&mut self) -> (r: String)
        ensures
            r@ == application_properties(*old(self)),
            *final(self) == *old(self),
    {
        let mut out = String::new();
        push_property(&mut out, "spring.application.version", "0.0.1");
        push_property(&mut out, "spring.config.validate", "true");
        push_property(&mut out, "server.address", "localhost");
        let port = u16_to_string(self.port);
        push_property(&mut out, "server.port", port.as_str());
        let postgres = self.pom_xml.has_dependency_that(is_postgres);
        if postgres {
            push_postgres_properties(&mut out, self);
        }
        let api = self.pom_xml.has_dependency_that(is_openapi_api);
        if api {
            push_property(&mut out, "springdoc.api-docs.path", "/api-docs");
        }
        let ui = self.pom_xml.has_dependency_that(is_openapi_ui);
        if ui {
            push_property(&mut out, "springdoc.swagger-ui.path", "/docs.html");
        }
        if api || ui {
            push_property(&mut out, "springdoc.show-actuator", "true");
        }
        assert(postgres == uses_postgres(self.pom_xml));
        assert(api == has_artifact(self.pom_xml, "springdoc-openapi-starter-webmvc-api"@));
        assert(ui == has_artifact(self.pom_xml, "springdoc-openapi-starter-webmvc-ui"@));
        assert(out@ =~= application_properties(*self));
        out
    }

    /// A codebase written to `output_dir`, serving on port 8082, with code in
    /// the POM's root package and the models, controllers, dto, services and
    /// repositories sub-folders.
    pub fn new(pom_xml: PomXml, output_dir: &str) -> (r: Self)
        ensures
            r.port == 8082,
            db_info_for(pom_xml.project_info.name@, r.db_info),
            r.root_folder@ == output_dir@,
            r.pom_xml == pom_xml,
            r.out_dirs.output_dir@ == output_dir@,
            r.out_dirs.code_folder@ == code_folder_of(
                output_dir@,
                pom_xml.project_info.group_id@ + "."@ + pom_xml.project_info.artifact_id@,
            ),
            r.out_dirs.models_suffix@ == "models"@,
            r.out_dirs.controllers_suffix@ == "controllers"@,
            r.out_dirs.dtos_suffix@ == "dto"@,
            r.out_dirs.services_suffix@ == "services"@,
            r.out_dirs.repos_suffix@ == "repositories"@,
            r.entities@.len() == 0,
            r.controller_classes@.len() == 0,
            r.dto_classes@.len() == 0,
            r.services@.len() == 0,
            r.jpa_repos@.len() == 0,
            !r.progress.has_written_initial_files,
            !r.progress.has_created_initial_folders,
            !r.progress.has_created_application_properties,
    {
        let package_path = pom_xml.get_root_package();
        let out_dirs = OutputDirs::new(String::from_str(output_dir), package_path).models(
            String::from_str("models"),
        ).controllers(String::from_str("controllers")).dtos(String::from_str("dto")).services(
            String::from_str("services"),
        ).repos(String::from_str("repositories"));
        let db_info = create_db_info(&pom_xml);
        Self {
            port: 8082,
            db_info,
            pom_xml,
            root_folder: String::from_str(output_dir),
            out_dirs,
            services: Vec::new(),
            jpa_repos: Vec::new(),
            entities: Vec::new(),
            dto_classes: Vec::new(),
            controller_classes: Vec::new(),
            progress: Progress {
                has_written_initial_files: false,
                has_created_initial_folders: false,
                has_created_application_properties: false,
            },
        }
    }

    fn package_named(&self, sub: &str) -> (r: String)
        ensures
            r@ == sub_package(self.pom_xml, sub@),
    {
        let mut p = self.pom_xml.get_root_package();
        p.append(".");
        p.append(sub);
        p
    }

    /// The package of the entity classes.
    pub fn models_package(&self) -> (r: String)
        ensures
            r@ == sub_package(self.pom_xml, "repositories"@),
    {
        self.package_named("repositories")
    }

    pub fn repositories_package(&self) -> (r: String)
        ensures
            r@ == sub_package(self.pom_xml, "repositories"@),
    {
        self.package_named("repositories")
    }

    pub fn services_package(&self) -> (r: String)
        ensures
            r@ == sub_package(self.pom_xml, "services"@),
    {
        self.package_named("services")
    }

    /// The package of the controllers.
    pub fn controllers_package(&self) -> (r: String)
        ensures
            r@ == sub_package(self.pom_xml, "services"@),
    {
        self.package_named("services")
    }

    pub fn dto_package(&self) -> (r: String)
        ensures
            r@ == sub_package(self.pom_xml, "dto"@),
    {
        self.package_named("dto")
    }

    /// Adds an entity with its repository, service, DTO and controller.
    pub fn add_entity(self, jclass: JavaClass) -> (r: Self)
        ensures
            r.port == self.port,
            r.pom_xml == self.pom_xml,
            r.out_dirs == self.out_dirs,
            r.entities@.len() == self.entities@.len() + 1,
            r.entities@.take(self.entities@.len() as int) == self.entities@,
            r.entities@.last().class_name@ == jclass.class_name@,
            r.services@.len() == self.services@.len() + 1,
            r.services@.take(self.services@.len() as int) == self.services@,
            r.services@.last().class_name@ == jclass.class_name@ + "Service"@,
            r.jpa_repos@.len() == self.jpa_repos@.len() + 1,
            r.jpa_repos@.take(self.jpa_repos@.len() as int) == self.jpa_repos@,
            r.jpa_repos@.last().name@ == jclass.class_name@ + "Repository"@,
            r.dto_classes@.len() == self.dto_classes@.len() + 1,
            r.dto_classes@.take(self.dto_classes@.len() as int) == self.dto_classes@,
            r.dto_classes@.last().class_name@ == jclass.class_name@ + "DTO"@,
            r.controller_classes@.len() == self.controller_classes@.len() + 1,
            r.controller_classes@.take(self.controller_classes@.len() as int)
                == self.controller_classes@,
            r.controller_classes@.last().class_name@ == jclass.class_name@ + "Controller"@,
    {
        let mut s = self;
        let model_import = Import::new(s.models_package(), jclass.class_name.clone());
        let model_import2 = Import::new(s.models_package(), jclass.class_name.clone());
        let crud_build = CrudBuilder::new(jclass);
        let entity = crud_build.spring_boot_entity();
        let jpa_repo = crud_build.jpa_repository_of(model_import);
        let service = crud_build.service_from_class(
            Import::new(s.repositories_package(), jpa_repo.name.clone()),
        );
        let dto = crud_build.dto_from_class(model_import2);
        let controller = crud_build.controller_from_class(
            Import::new(s.services_package(), service.class_name.clone()),
            Import::new(s.dto_package(), dto.class_name.clone()),
        );
        let ghost (e0, s0, j0, d0, c0) = (s.entities@, s.services@, s.jpa_repos@, s.dto_classes@, s.controller_classes@);
        s.entities.push(entity);
        s.services.push(service);
        s.jpa_repos.push(jpa_repo);
        s.dto_classes.push(dto);
        s.controller_classes.push(controller);
        assert(s.entities@.take(e0.len() as int) =~= e0);
        assert(s.services@.take(s0.len() as int) =~= s0);
        assert(s.jpa_repos@.take(j0.len() as int) =~= j0);
        assert(s.dto_classes@.take(d0.len() as int) =~= d0);
        assert(s.controller_classes@.take(c0.len() as int) =~= c0);
        s
    }

    /// Adds each entity in turn.
    pub fn add_entities(self, jclasses: Vec<JavaClass>) -> (r: Self)
        ensures
            r.port == self.port,
            r.pom_xml == self.pom_xml,
            r.entities@.len() == self.entities@.len() + jclasses@.len(),
            r.entities@.take(self.entities@.len() as int) == self.entities@,
            forall|k: int|
                0 <= k < jclasses@.len() ==> (#[trigger] r.entities@[self.entities@.len() + k]).class_name@
                    == jclasses@[k].class_name@,
            r.services@.len() == self.services@.len() + jclasses@.len(),
            r.jpa_repos@.len() == self.jpa_repos@.len() + jclasses@.len(),
            r.dto_classes@.len() == self.dto_classes@.len() + jclasses@.len(),
            r.controller_classes@.len() == self.controller_classes@.len() + jclasses@.len(),
    {
        let ghost n0 = self.entities@.len();
        let ghost e0 = self.entities@;
        let ghost (s0, j0, d0, c0) = (self.services@.len(), self.jpa_repos@.len(), self.dto_classes@.len(), self.controller_classes@.len());
        let ghost port = self.port;
        let ghost pom = self.pom_xml;
        let ghost all = jclasses@;
        let total = jclasses.len();
        let mut s = self;
        let mut rest = jclasses;
        let mut k: usize = 0;
        while rest.len() > 0
            invariant
                k + rest@.len() == all.len(),
                all.len() == total,
                rest@ == all.subrange(k as int, all.len() as int),
                s.port == port,
                s.pom_xml == pom,
                s.entities@.len() == n0 + k,
                s.entities@.take(n0 as int) == e0,
                forall|j: int| 0 <= j < k ==> (#[trigger] s.entities@[n0 + j]).class_name@ == all[j].class_name@,
                s.services@.len() == s0 + k,
                s.jpa_repos@.len() == j0 + k,
                s.dto_classes@.len() == d0 + k,
                s.controller_classes@.len() == c0 + k,
            decreases rest.len(),
        {
            let jclass = rest.remove(0);
            assert(jclass == all[k as int]);
            let ghost before = s.entities@;
            s = s.add_entity(jclass);
            assert forall|j: int| 0 <= j < k + 1 implies (#[trigger] s.entities@[n0 + j]).class_name@
                == all[j].class_name@ by {
                if j < k {
                    assert(s.entities@[n0 + j] == s.entities@.take(before.len() as int)[n0 + j]);
                }
            }
            assert(s.entities@.take(n0 as int) =~= e0) by {
                assert(s.entities@.take(n0 as int) =~= s.entities@.take(before.len() as int).take(n0 as int));
            }
            k = k + 1;
        }
        s
    }

    /// The application class: `@SpringBootApplication public class <Name>`
    /// in the root package, with `main` starting Spring.
    pub fn create_spring_main_class(&self) -> (r: JavaClass)
        requires
            self.pom_xml.project_info.name@.len() > 0,
        ensures
            r.class_name@ == capitalized(self.pom_xml.project_info.name@),
            r.package@ == self.pom_xml.project_info.group_id@ + "."@ + self.pom_xml.project_info.artifact_id@,
            r.class_modifiers@ == seq![AccessModifiers::Public],
            r.superclass is None,
            r.implements@.len() == 0,
            r.fields@.len() == 0,
            r.generic_params.generics@.len() == 0,
            r.imports@.len() == 2,
            import_is(r.imports@[0], "org.springframework.boot"@, "SpringApplication"@),
            import_is(r.imports@[1], "org.springframework.boot.autoconfigure"@, "SpringBootApplication"@),
            r.class_annotations@.len() == 1,
            plain_annotation(r.class_annotations@[0], "SpringBootApplication"@),
            r.methods@.len() == 1,
            r.methods@[0].name@ == "main"@,
            r.methods@[0].modifiers@ == seq![AccessModifiers::Static, AccessModifiers::Public],
            r.methods@[0].return_type.name@ == "void"@,
            r.methods@[0].return_type.generic_params is None,
            r.methods@[0].annotations@.len() == 0,
            r.methods@[0].parameters@.len() == 1,
            r.methods@[0].parameters@[0].name@ == "args"@,
            r.methods@[0].parameters@[0].type_.name@ == "String[]"@,
            r.methods@[0].parameters@[0].annotation@.len() == 0,
            r.methods@[0].code@ == "SpringApplication.run("@ + r.class_name@ + ".class,args);"@,
    {
        let class_name = capitalize(self.pom_xml.project_info.name.as_str());
        let package = self.pom_xml.get_root_package();
        let mut code = String::from_str("SpringApplication.run(");
        code.append(class_name.as_str());
        code.append(".class,args);");
        let main = Method::new(TypeName::new(String::from_str("void")), String::from_str("main")).static_().public().param(
            VariableParam::new(TypeName::new(String::from_str("String[]")), String::from_str("args")),
        ).code(code);
        JavaClass::new(class_name, package).import(
            Import::new(String::from_str("org.springframework.boot"), String::from_str("SpringApplication")),
        ).import(
            Import::new(
                String::from_str("org.springframework.boot.autoconfigure"),
                String::from_str("SpringBootApplication"),
            ),
        ).annotation(crate::annotations::Annotation::new(String::from_str("SpringBootApplication"))).public().method(main)
    }

    /// Moves every generated class and repository into its package; nothing
    /// else changes.
    pub fn put_classes_in_packages(&mut self)
        ensures
            *final(self) == (MavenCodebase {
                entities: final(self).entities,
                services: final(self).services,
                controller_classes: final(self).controller_classes,
                jpa_repos: final(self).jpa_repos,
                dto_classes: final(self).dto_classes,
                ..*old(self)
            }),
            moved_to(old(self).entities@, final(self).entities@, sub_package(old(self).pom_xml, "repositories"@)),
            moved_to(old(self).services@, final(self).services@, sub_package(old(self).pom_xml, "services"@)),
            moved_to(old(self).controller_classes@, final(self).controller_classes@, sub_package(old(self).pom_xml, "services"@)),
            moved_to(old(self).dto_classes@, final(self).dto_classes@, sub_package(old(self).pom_xml, "dto"@)),
            final(self).jpa_repos@.len() == old(self).jpa_repos@.len(),
            forall|k: int| 0 <= k < final(self).jpa_repos@.len() ==> (#[trigger] final(self).jpa_repos@[k]) == (Interface {
                package: final(self).jpa_repos@[k].package,
                ..old(self).jpa_repos@[k]
            }) && final(self).jpa_repos@[k].package@ == sub_package(old(self).pom_xml, "repositories"@),
    {
        let models = self.models_package();
        set_packages(&mut self.entities, &models);
        let services = self.services_package();
        set_packages(&mut self.services, &services);
        let controllers = self.controllers_package();
        set_packages(&mut self.controller_classes, &controllers);
        let repos = self.repositories_package();
        set_interface_packages(&mut self.jpa_repos, &repos);
        let dtos = self.dto_package();
        set_packages(&mut self.dto_classes, &dtos);
    }
}

/// Sets the package of every interface.
fn set_interface_packages(interfaces: &mut Vec<Interface>, package: &String)
    ensures
        final(interfaces)@.len() == old(interfaces)@.len(),
        forall|k: int| 0 <= k < final(interfaces)@.len() ==> (#[trigger] final(interfaces)@[k]) == (Interface {
            package: final(interfaces)@[k].package,
            ..old(interfaces)@[k]
        }) && final(interfaces)@[k].package@ == package@,
{
    let n = interfaces.len();
    let mut i: usize = 0;
    while i < n
        invariant
            n == interfaces@.len(),
            n == old(interfaces)@.len(),
            0 <= i <= n,
            forall|k: int| 0 <= k < i ==> (#[trigger] interfaces@[k]) == (Interface {
                package: interfaces@[k].package,
                ..old(interfaces)@[k]
            }) && interfaces@[k].package@ == package@,
            forall|k: int| i <= k < n ==> #[trigger] interfaces@[k] == old(interfaces)@[k],
        decreases n - i,
    {
        interfaces[i].package_in_place(package.clone());
        i = i + 1;
    }
}

/// Sets the package of every class.
fn set_packages(classes: &mut Vec<JavaClass>, package: &String)
    ensures
        final(classes)@.len() == old(classes)@.len(),
        forall|k: int| 0 <= k < final(classes)@.len() ==> (#[trigger] final(classes)@[k]) == (JavaClass {
            package: final(classes)@[k].package,
            ..old(classes)@[k]
        }) && final(classes)@[k].package@ == package@,
{
    let n = classes.len();
    let mut i: usize = 0;
    while i < n
        invariant
            n == classes@.len(),
            n == old(classes)@.len(),
            0 <= i <= n,
            forall|k: int| 0 <= k < i ==> (#[trigger] classes@[k]) == (JavaClass {
                package: classes@[k].package,
                ..old(classes)@[k]
            }) && classes@[k].package@ == package@,
            forall|k: int| i <= k < n ==> #[trigger] classes@[k] == old(classes)@[k],
        decreases n - i,
    {
        classes[i].package_in_place(package.clone());
        i = i + 1;
    }
}

} // verus!
