use vstd::prelude::*;

verus! {

/// A Maven dependency: group id, artifact id and optional version.
pub struct Library {
    pub group_id: String,
    pub artifact_id: String,
    pub version: Option<String>,
}

/// The identity of the project being generated.
#[derive(Clone)]
pub struct ProjectInfo {
    pub group_id: String,
    pub artifact_id: String,
    pub name: String,
    pub description: String,
    pub version: String,
}

/// A `pom.xml` model: the Java version, the dependencies, the project and the
/// parent POM.
pub struct PomXml {
    pub java: String,
    pub dependencies: Vec<Library>,
    pub project_info: ProjectInfo,
    pub parent_pom: Library,
}

/// Rendering of a POM element to XML text.
pub trait Generate {
    spec fn generated(&self) -> Seq<char>;

    fn generate(&self) -> (r: String)
        ensures
            r@ == self.generated(),
    ;
}

/// Whether `l` has exactly these coordinates.
pub open spec fn library_is(l: Library, group: Seq<char>, artifact: Seq<char>, version: Option<
    Seq<char>,
>) -> bool {
    &&& l.group_id@ == group
    &&& l.artifact_id@ == artifact
    &&& match (l.version, version) {
        (Some(v), Some(w)) => v@ == w,
        (None, None) => true,
        _ => false,
    }
}

/// `<groupId>..</groupId><artifactId>..</artifactId>`, then the version
/// element when there is a version.
pub open spec fn coordinates_code(l: Library) -> Seq<char> {
    "<groupId>"@ + l.group_id@ + "</groupId>"@ + "<artifactId>"@ + l.artifact_id@
        + "</artifactId>"@ + match l.version {
        Some(v) => "<version>"@ + v@ + "</version>"@,
        None => Seq::empty(),
    }
}

/// A dependency element.
pub open spec fn library_code(l: Library) -> Seq<char> {
    "<dependency>\n"@ + coordinates_code(l) + "\n</dependency>"@
}

/// The dependency elements one after another.
pub open spec fn libraries_code(ls: Seq<Library>) -> Seq<char>
    decreases ls.len(),
{
    if ls.len() == 0 {
        Seq::empty()
    } else {
        libraries_code(ls.drop_last()) + library_code(ls.last())
    }
}

/// The `<dependencies>` element.
pub open spec fn dependencies_code(ls: Seq<Library>) -> Seq<char> {
    "<dependencies>\n"@ + libraries_code(ls) + "\n</dependencies>"@
}

/// The whole `pom.xml` text.
pub open spec fn pom_code(p: PomXml) -> Seq<char> {
    r#"<?xml version="1.0" encoding="UTF-8"?>"#@
        + r#"<project xmlns="http://maven.apache.org/POM/4.0.0" xmlns:xsi="http://www.w3.org/2001/XMLSchema-instance"
         xsi:schemaLocation="http://maven.apache.org/POM/4.0.0 https://maven.apache.org/xsd/maven-4.0.0.xsd">"#@
        + "<modelVersion>4.0.0</modelVersion>"@ + "<parent>\n"@ + coordinates_code(p.parent_pom)
        + "\n</parent>"@ + "<description>"@ + p.project_info.description@ + "</description>\n"@
        + "<name>"@ + p.project_info.name@ + "</name>\n"@ + "<groupId>"@ + p.project_info.group_id@
        + "</groupId>\n"@ + "<artifactId>"@ + p.project_info.artifact_id@ + "</artifactId>"@
        + "<version>0.0.1-SNAPSHOT</version>"@ + "<properties>\n"@ + "<java.version>"@ + p.java@
        + "</java.version>"@ + "\n</properties>"@ + dependencies_code(p.dependencies@)
        + "</project>"@
}

/// `new` is `old` with one more dependency, with these coordinates and no
/// version, at the end.
pub open spec fn adds_library(old: PomXml, new: PomXml, group: Seq<char>, artifact: Seq<char>) -> bool {
    &&& new == (PomXml { dependencies: new.dependencies, ..old })
    &&& new.dependencies@.len() == old.dependencies@.len() + 1
    &&& new.dependencies@.take(old.dependencies@.len() as int) == old.dependencies@
    &&& library_is(new.dependencies@.last(), group, artifact, None)
}

/// Appends the coordinates of `l`.
pub fn push_coordinates(out: &mut String, l: &Library)
    ensures
        final(out)@ == old(out)@ + coordinates_code(*l),
{
    out.append("<groupId>");
    out.append(l.group_id.as_str());
    out.append("</groupId>");
    out.append("<artifactId>");
    out.append(l.artifact_id.as_str());
    out.append("</artifactId>");
    match &l.version {
        Some(v) => {
            out.append("<version>");
            out.append(v.as_str());
            out.append("</version>");
        },
        None => {},
    }
    assert(final(out)@ =~= old(out)@ + coordinates_code(*l));
}

/// Two libraries are equal when their artifact ids are;
/// nothing else is compared.
impl PartialEq for Library {
    fn eq(&self, other: &Library) -> (r: bool) {
        self.artifact_id == other.artifact_id
    }
}

impl vstd::std_specs::cmp::PartialEqSpecImpl for Library {
    open spec fn obeys_eq_spec() -> bool {
        true
    }

    open spec fn eq_spec(&self, other: &Library) -> bool {
        self.artifact_id@ == other.artifact_id@
    }
}

impl Eq for Library {}

impl Default for Library {
    fn default() -> (r: Self)
        ensures
            library_is(r, Seq::empty(), Seq::empty(), None),
    {
        Self { group_id: String::new(), artifact_id: String::new(), version: None }
    }
}

impl Library {
    pub fn new(group_id: String, artifact_id: String) -> (r: Self)
        ensures
            library_is(r, group_id@, artifact_id@, None),
    {
        Self { group_id, artifact_id, version: None }
    }

    pub fn new_with_version(group_id: String, artifact_id: String, version: String) -> (r: Self)
        ensures
            library_is(r, group_id@, artifact_id@, Some(version@)),
    {
        Self { group_id, artifact_id, version: Some(version) }
    }
}

impl Generate for Library {
    open spec fn generated(&self) -> Seq<char> {
        library_code(*self)
    }

    fn generate(&self) -> (r: String) {
        let mut out = String::new();
        out.append("<dependency>\n");
        push_coordinates(&mut out, self);
        out.append("\n</dependency>");
        out
    }
}

impl Generate for Vec<Library> {
    open spec fn generated(&self) -> Seq<char> {
        dependencies_code(self@)
    }

    fn generate(&self) -> (r: String) {
        let mut out = String::new();
        out.append("<dependencies>\n");
        let ghost start = out@;
        let mut i: usize = 0;
        while i < self.len()
            invariant
                0 <= i <= self.len(),
                out@ == start + libraries_code(self@.take(i as int)),
            decreases self.len() - i,
        {
            let code = self[i].generate();
            out.append(code.as_str());
            proof {
                let t = self@.take(i as int + 1);
                assert(t.drop_last() =~= self@.take(i as int));
                assert(out@ =~= start + libraries_code(t));
            }
            i = i + 1;
        }
        assert(self@.take(self.len() as int) =~= self@);
        out.append("\n</dependencies>");
        out
    }
}

impl PomXml {
    /// The root Java package: the group id and the artifact id joined by a dot.
    pub fn get_root_package(&self) -> (r: String)
        ensures
            r@ == self.project_info.group_id@ + "."@ + self.project_info.artifact_id@,
    {
        let mut out = self.project_info.group_id.clone();
        out.append(".");
        out.append(self.project_info.artifact_id.as_str());
        out
    }

    /// Whether some dependency satisfies `f`.
    pub fn has_dependency_that<F: Fn(&Library) -> bool>(&self, f: F) -> (r: bool)
        requires
            forall|i: int| 0 <= i < self.dependencies@.len() ==> f.requires((&self.dependencies@[i],)),
        ensures
            r ==> exists|i: int|
                0 <= i < self.dependencies@.len() && f.ensures((&self.dependencies@[i],), true),
            !r ==> forall|i: int|
                0 <= i < self.dependencies@.len() ==> f.ensures((&self.dependencies@[i],), false),
    {
        let mut i: usize = 0;
        while i < self.dependencies.len()
            invariant
                0 <= i <= self.dependencies.len(),
                forall|j: int| 0 <= j < self.dependencies@.len() ==> f.requires((&self.dependencies@[j],)),
                forall|j: int| 0 <= j < i ==> f.ensures((&self.dependencies@[j],), false),
            decreases self.dependencies.len() - i,
        {
            if f(&self.dependencies[i]) {
                return true;
            }
            i = i + 1;
        }
        false
    }

    /// A POM for the given project, with no Java version, no dependencies and
    /// an empty parent.
    pub fn new(project_info: ProjectInfo) -> (r: Self)
        ensures
            r.project_info == project_info,
            r.java@.len() == 0,
            r.dependencies@.len() == 0,
            library_is(r.parent_pom, Seq::empty(), Seq::empty(), None),
    {
        Self { project_info, java: String::new(), dependencies: Vec::new(), parent_pom: Library::default() }
    }

    pub fn java_version(self, version: String) -> (r: Self)
        ensures
            r == (PomXml { java: version, ..self }),
    {
        PomXml { java: version, ..self }
    }

    pub fn artifact(self, id: String) -> (r: Self)
        ensures
            r == (PomXml { project_info: (ProjectInfo { artifact_id: id, ..self.project_info }), ..self }),
    {
        let mut p = self;
        p.project_info.artifact_id = id;
        p
    }

    pub fn description(self, descr: String) -> (r: Self)
        ensures
            r == (PomXml { project_info: (ProjectInfo { description: descr, ..self.project_info }), ..self }),
    {
        let mut p = self;
        p.project_info.description = descr;
        p
    }

    pub fn project_name(self, name: String) -> (r: Self)
        ensures
            r == (PomXml { project_info: (ProjectInfo { name: name, ..self.project_info }), ..self }),
    {
        let mut p = self;
        p.project_info.name = name;
        p
    }

    pub fn group_id(self, id: String) -> (r: Self)
        ensures
            r == (PomXml { project_info: (ProjectInfo { group_id: id, ..self.project_info }), ..self }),
    {
        let mut p = self;
        p.project_info.group_id = id;
        p
    }

    /// Adds a dependency with a version; note the order of the arguments:
    /// artifact id first.
    pub fn add_library_with_version(self, artifact_id: String, group_id: String, version: String) -> (r: Self)
        ensures
            r == (PomXml { dependencies: r.dependencies, ..self }),
            r.dependencies@.len() == self.dependencies@.len() + 1,
            r.dependencies@.take(self.dependencies@.len() as int) == self.dependencies@,
            library_is(r.dependencies@.last(), group_id@, artifact_id@, Some(version@)),
    {
        let mut p = self;
        p.dependencies.push(Library::new_with_version(group_id, artifact_id, version));
        assert(p.dependencies@.take(self.dependencies@.len() as int) =~= self.dependencies@);
        p
    }

    /// Adds a dependency without a version.
    pub fn add_library(self, group_id: String, artifact_id: String) -> (r: Self)
        ensures
            adds_library(self, r, group_id@, artifact_id@),
    {
        let mut p = self;
        p.dependencies.push(Library::new(group_id, artifact_id));
        assert(p.dependencies@.take(self.dependencies@.len() as int) =~= self.dependencies@);
        p
    }

    /// Adds the two springdoc OpenAPI starters, UI then API, version 2.7.0.
    pub fn openapi(self) -> (r: PomXml)
        ensures
            r == (PomXml { dependencies: r.dependencies, ..self }),
            r.dependencies@.len() == self.dependencies@.len() + 2,
            r.dependencies@.take(self.dependencies@.len() as int) == self.dependencies@,
            library_is(r.dependencies@[self.dependencies@.len() as int], "org.springdoc"@,
                "springdoc-openapi-starter-webmvc-ui"@, Some("2.7.0"@)),
            library_is(r.dependencies@.last(), "org.springdoc"@,
                "springdoc-openapi-starter-webmvc-api"@, Some("2.7.0"@)),
    {
        let mut p = self;
        p.dependencies.push(Library::new_with_version(
            String::from_str("org.springdoc"),
            String::from_str("springdoc-openapi-starter-webmvc-ui"),
            String::from_str("2.7.0"),
        ));
        p.dependencies.push(Library::new_with_version(
            String::from_str("org.springdoc"),
            String::from_str("springdoc-openapi-starter-webmvc-api"),
            String::from_str("2.7.0"),
        ));
        assert(p.dependencies@.take(self.dependencies@.len() as int) =~= self.dependencies@);
        p
    }

    /// Sets the Spring Boot 3.4.1 parent and adds the web, Lombok, JPA and
    /// OpenAPI dependencies.
    pub fn spring_boot(self) -> (r: Self)
        ensures
            r.java == self.java,
            r.project_info == self.project_info,
            library_is(r.parent_pom, "org.springframework.boot"@, "spring-boot-starter-parent"@,
                Some("3.4.1"@)),
            r.dependencies@.len() == self.dependencies@.len() + 5,
            r.dependencies@.take(self.dependencies@.len() as int) == self.dependencies@,
            library_is(r.dependencies@[self.dependencies@.len() as int], "org.springframework.boot"@,
                "spring-boot-starter-web"@, None),
            library_is(r.dependencies@[self.dependencies@.len() + 1int], "org.projectlombok"@,
                "lombok"@, None),
            library_is(r.dependencies@[self.dependencies@.len() + 2int], "org.springframework.boot"@,
                "spring-boot-starter-data-jpa"@, None),
            library_is(r.dependencies@[self.dependencies@.len() + 3int], "org.springdoc"@,
                "springdoc-openapi-starter-webmvc-ui"@, Some("2.7.0"@)),
            library_is(r.dependencies@[self.dependencies@.len() + 4int], "org.springdoc"@,
                "springdoc-openapi-starter-webmvc-api"@, Some("2.7.0"@)),
    {
        let ghost n = self.dependencies@.len() as int;
        let ghost d0 = self.dependencies@;
        let spring_parent = Library::new_with_version(
            String::from_str("org.springframework.boot"),
            String::from_str("spring-boot-starter-parent"),
            String::from_str("3.4.1"),
        );
        let mut p = PomXml { parent_pom: spring_parent, ..self };
        p = p.spring_boot_starter_web();
        let ghost d1 = p.dependencies@;
        p = p.lombok();
        let ghost d2 = p.dependencies@;
        p = p.spring_boot_starter_data_jpa();
        let ghost d3 = p.dependencies@;
        p = p.openapi();
        assert(d1.take(n) == d0);
        assert(d2.take(n + 1) == d1);
        assert(d3.take(n + 2) == d2);
        assert(p.dependencies@.take(n + 3) == d3);
        assert(p.dependencies@[n] == d3[n]);
        assert(d3[n] == d2[n]);
        assert(d2[n] == d1[n]);
        assert(p.dependencies@[n + 1] == d3[n + 1]);
        assert(d3[n + 1] == d2[n + 1]);
        assert(p.dependencies@[n + 2] == d3[n + 2]);
        assert forall|i: int| 0 <= i < n implies p.dependencies@[i] == d0[i] by {
            assert(p.dependencies@[i] == d3[i]);
            assert(d3[i] == d2[i]);
            assert(d2[i] == d1[i]);
            assert(d1[i] == d0[i]);
        }
        assert(p.dependencies@.take(n) =~= d0);
        p
    }

    pub fn spring_boot_starter_actuator(self) -> (r: Self)
        ensures
            adds_library(self, r, "org.springframework.boot"@, "spring-boot-starter-actuator"@),
    {
        self.add_library(String::from_str("org.springframework.boot"), String::from_str("spring-boot-starter-actuator"))
    }

    pub fn spring_boot_starter_batch(self) -> (r: Self)
        ensures
            adds_library(self, r, "org.springframework.boot"@, "spring-boot-starter-batch"@),
    {
        self.add_library(String::from_str("org.springframework.boot"), String::from_str("spring-boot-starter-batch"))
    }

    pub fn spring_boot_starter_data_jdbc(self) -> (r: Self)
        ensures
            adds_library(self, r, "org.springframework.boot"@, "spring-boot-starter-data-jdbc"@),
    {
        self.add_library(String::from_str("org.springframework.boot"), String::from_str("spring-boot-starter-data-jdbc"))
    }

    pub fn spring_boot_starter_data_jpa(self) -> (r: Self)
        ensures
            adds_library(self, r, "org.springframework.boot"@, "spring-boot-starter-data-jpa"@),
    {
        self.add_library(String::from_str("org.springframework.boot"), String::from_str("spring-boot-starter-data-jpa"))
    }

    pub fn spring_boot_starter_data_ldap(self) -> (r: Self)
        ensures
            adds_library(self, r, "org.springframework.boot"@, "spring-boot-starter-data-ldap"@),
    {
        self.add_library(String::from_str("org.springframework.boot"), String::from_str("spring-boot-starter-data-ldap"))
    }

    pub fn spring_boot_starter_data_rest(self) -> (r: Self)
        ensures
            adds_library(self, r, "org.springframework.boot"@, "spring-boot-starter-data-rest"@),
    {
        self.add_library(String::from_str("org.springframework.boot"), String::from_str("spring-boot-starter-data-rest"))
    }

    pub fn spring_boot_starter_mail(self) -> (r: Self)
        ensures
            adds_library(self, r, "org.springframework.boot"@, "spring-boot-starter-mail"@),
    {
        self.add_library(String::from_str("org.springframework.boot"), String::from_str("spring-boot-starter-mail"))
    }

    pub fn spring_boot_starter_oauth2_authorization_server(self) -> (r: Self)
        ensures
            adds_library(self, r, "org.springframework.boot"@, "spring-boot-starter-oauth2-authorization-server"@),
    {
        self.add_library(String::from_str("org.springframework.boot"), String::from_str("spring-boot-starter-oauth2-authorization-server"))
    }

    pub fn spring_boot_starter_oauth2_client(self) -> (r: Self)
        ensures
            adds_library(self, r, "org.springframework.boot"@, "spring-boot-starter-oauth2-client"@),
    {
        self.add_library(String::from_str("org.springframework.boot"), String::from_str("spring-boot-starter-oauth2-client"))
    }

    pub fn spring_boot_starter_thymeleaf(self) -> (r: Self)
        ensures
            adds_library(self, r, "org.springframework.boot"@, "spring-boot-starter-thymeleaf"@),
    {
        self.add_library(String::from_str("org.springframework.boot"), String::from_str("spring-boot-starter-thymeleaf"))
    }

    pub fn spring_boot_starter_web(self) -> (r: Self)
        ensures
            adds_library(self, r, "org.springframework.boot"@, "spring-boot-starter-web"@),
    {
        self.add_library(String::from_str("org.springframework.boot"), String::from_str("spring-boot-starter-web"))
    }

    pub fn spring_kafka(self) -> (r: Self)
        ensures
            adds_library(self, r, "org.springframework.kafka"@, "spring-kafka"@),
    {
        self.add_library(String::from_str("org.springframework.kafka"), String::from_str("spring-kafka"))
    }

    pub fn thymeleaf_extras_springsecurity6(self) -> (r: Self)
        ensures
            adds_library(self, r, "org.thymeleaf.extras"@, "thymeleaf-extras-springsecurity6"@),
    {
        self.add_library(String::from_str("org.thymeleaf.extras"), String::from_str("thymeleaf-extras-springsecurity6"))
    }

    pub fn spring_boot_devtools(self) -> (r: Self)
        ensures
            adds_library(self, r, "org.springframework.boot"@, "spring-boot-devtools"@),
    {
        self.add_library(String::from_str("org.springframework.boot"), String::from_str("spring-boot-devtools"))
    }

    pub fn spring_boot_docker_compose(self) -> (r: Self)
        ensures
            adds_library(self, r, "org.springframework.boot"@, "spring-boot-docker-compose"@),
    {
        self.add_library(String::from_str("org.springframework.boot"), String::from_str("spring-boot-docker-compose"))
    }

    pub fn postgresql(self) -> (r: Self)
        ensures
            adds_library(self, r, "org.postgresql"@, "postgresql"@),
    {
        self.add_library(String::from_str("org.postgresql"), String::from_str("postgresql"))
    }

    pub fn lombok(self) -> (r: Self)
        ensures
            adds_library(self, r, "org.projectlombok"@, "lombok"@),
    {
        self.add_library(String::from_str("org.projectlombok"), String::from_str("lombok"))
    }

    pub fn spring_boot_starter_test(self) -> (r: Self)
        ensures
            adds_library(self, r, "org.springframework.boot"@, "spring-boot-starter-test"@),
    {
        self.add_library(String::from_str("org.springframework.boot"), String::from_str("spring-boot-starter-test"))
    }

    pub fn spring_boot_testcontainers(self) -> (r: Self)
        ensures
            adds_library(self, r, "org.springframework.boot"@, "spring-boot-testcontainers"@),
    {
        self.add_library(String::from_str("org.springframework.boot"), String::from_str("spring-boot-testcontainers"))
    }

    pub fn spring_batch_test(self) -> (r: Self)
        ensures
            adds_library(self, r, "org.springframework.batch"@, "spring-batch-test"@),
    {
        self.add_library(String::from_str("org.springframework.batch"), String::from_str("spring-batch-test"))
    }

    pub fn spring_kafka_test(self) -> (r: Self)
        ensures
            adds_library(self, r, "org.springframework.kafka"@, "spring-kafka-test"@),
    {
        self.add_library(String::from_str("org.springframework.kafka"), String::from_str("spring-kafka-test"))
    }

    pub fn spring_restdocs_mockmvc(self) -> (r: Self)
        ensures
            adds_library(self, r, "org.springframework.restdocs"@, "spring-restdocs-mockmvc"@),
    {
        self.add_library(String::from_str("org.springframework.restdocs"), String::from_str("spring-restdocs-mockmvc"))
    }

    pub fn spring_security_test(self) -> (r: Self)
        ensures
            adds_library(self, r, "org.springframework.security"@, "spring-security-test"@),
    {
        self.add_library(String::from_str("org.springframework.security"), String::from_str("spring-security-test"))
    }

    pub fn junit_jupiter(self) -> (r: Self)
        ensures
            adds_library(self, r, "org.testcontainers"@, "junit-jupiter"@),
    {
        self.add_library(String::from_str("org.testcontainers"), String::from_str("junit-jupiter"))
    }

    pub fn kafka(self) -> (r: Self)
        ensures
            adds_library(self, r, "org.testcontainers"@, "kafka"@),
    {
        self.add_library(String::from_str("org.testcontainers"), String::from_str("kafka"))
    }

    pub fn testcontainers_postgresql(self) -> (r: Self)
        ensures
            adds_library(self, r, "org.testcontainers"@, "postgresql"@),
    {
        self.add_library(String::from_str("org.testcontainers"), String::from_str("postgresql"))
    }
}

impl Generate for PomXml {
    open spec fn generated(&self) -> Seq<char> {
        pom_code(*self)
    }

    fn generate(&self) -> (r: String) {
        let mut out = String::new();
        out.append(r#"<?xml version="1.0" encoding="UTF-8"?>"#);
        out.append(r#"<project xmlns="http://maven.apache.org/POM/4.0.0" xmlns:xsi="http://www.w3.org/2001/XMLSchema-instance"
         xsi:schemaLocation="http://maven.apache.org/POM/4.0.0 https://maven.apache.org/xsd/maven-4.0.0.xsd">"#);
        out.append("<modelVersion>4.0.0</modelVersion>");
        out.append("<parent>\n");
        push_coordinates(&mut out, &self.parent_pom);
        out.append("\n</parent>");
        out.append("<description>");
        out.append(self.project_info.description.as_str());
        out.append("</description>\n");
        out.append("<name>");
        out.append(self.project_info.name.as_str());
        out.append("</name>\n");
        out.append("<groupId>");
        out.append(self.project_info.group_id.as_str());
        out.append("</groupId>\n");
        out.append("<artifactId>");
        out.append(self.project_info.artifact_id.as_str());
        out.append("</artifactId>");
        out.append("<version>0.0.1-SNAPSHOT</version>");
        out.append("<properties>\n");
        out.append("<java.version>");
        out.append(self.java.as_str());
        out.append("</java.version>");
        out.append("\n</properties>");
        let deps = self.dependencies.generate();
        out.append(deps.as_str());
        out.append("</project>");
        assert(out@ =~= pom_code(*self));
        out
    }
}

} // verus!
