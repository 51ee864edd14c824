use java_builder::maven_builder::MavenCodebase;
use java_builder::pom_xml::{Generate, PomXml, ProjectInfo};

fn sample_project_info() -> ProjectInfo {
    ProjectInfo {
        name: "TempContRvTool".to_owned(),
        version: "".to_owned(),
        group_id: "org.javacodegen".to_owned(),
        artifact_id: "rvtool".to_owned(),
        description: "This is a project to showcase the methodology of runtime verification in the context of event based systems".to_owned(),
    }
}

#[test]
fn can_config_application_properties() {
    let top_folder = "generated4";
    let project_info = sample_project_info();
    let mut pom_xml = PomXml::new(project_info.clone());
    let java_version = "17".to_owned();
    pom_xml = pom_xml.java_version(java_version);
    pom_xml = pom_xml.spring_boot();
    let pom = pom_xml.generate();
    assert!(pom.contains("openapi"), "Pom.xml does not contain openapi");
    let mut mvn_code = MavenCodebase::new(pom_xml, top_folder);
    let app = mvn_code.create_application_properties();
    println!("Application properties:\n {app}");
    let openapi_requirements =
        app.contains("springdoc.swagger-ui.path") && app.contains("springdoc.api-docs.path");
    assert!(
        openapi_requirements,
        "application.properties is not properly configured for openapi"
    );
}

#[test]
fn project_codegen_can_create_pom_xml() {
    let project_info = sample_project_info();
    let mut pom_xml = PomXml::new(project_info.clone());
    let java_version = "17".to_owned();
    pom_xml = pom_xml.java_version(java_version.clone());
    let sb_conf_library = (
        "org.springframework.boot",
        "spring-boot-configuration-processor",
    );
    pom_xml = pom_xml.add_library(sb_conf_library.0.into(), sb_conf_library.1.into());

    pom_xml = pom_xml.spring_boot();
    pom_xml = pom_xml.postgresql();
    pom_xml = pom_xml.lombok();
    pom_xml = pom_xml.spring_boot_devtools();

    let result = pom_xml.generate();
    assert!(
        !result.is_empty(),
        "the result of pom.xml generation was an empty string"
    );
    assert!(
        result.contains(&project_info.description),
        "Description is not properly included"
    );
    assert!(
        result.contains(&project_info.name),
        "Project name is not properly included in pom.xml"
    );
    assert!(
        result.contains(&("<java.version>".to_owned() + &java_version + "</java.version>")),
        "Java version is not properly included in pom.xml"
    );
    assert!(
        result.contains(&project_info.group_id),
        "Group id is not properly included in pom.xml"
    );
    assert!(
        result.contains(&project_info.artifact_id),
        "Artifact id is not properly included in pom.xml"
    );
    assert!(
        result.contains("<dependencies>"),
        "Dependencies are not properly included in pom.xml"
    );
    assert!(result.contains("org.springframework.boot"));
    assert!(result.contains("org.postgresql"));
    assert!(result.contains("org.projectlombok"));
    assert!(result.contains("spring-boot-devtools"));
}
