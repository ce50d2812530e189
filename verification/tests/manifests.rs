use hollowcheck::detect::dependencies::AnyManifest;
use hollowcheck::detect::manifest::golang::GoManifest;
use hollowcheck::detect::manifest::homeassistant::{
    fuzzy_match_requirements, ComponentData, HomeAssistantManifest,
};
use hollowcheck::detect::manifest::python::{PythonManifest, PythonSources};
use hollowcheck::detect::manifest::utils::{extract_package_name, import_matches_package};
use hollowcheck::detect::manifest::{
    detect_manifest_type, ManifestProvider, ManifestType, NoManifest, ProjectMarkers,
};

fn sample_go_mod() -> &'static str {
    r#"
module k8s.io/kubernetes

go 1.22.0

require (
	github.com/Azure/azure-sdk-for-go v68.0.0+incompatible
	github.com/aws/aws-sdk-go v1.50.32
	google.golang.org/grpc v1.78.0
	k8s.io/api v0.0.0
	k8s.io/apimachinery v0.0.0
)

require (
	github.com/inconshreveable/mousetrap v1.1.0 // indirect
	github.com/spf13/pflag v1.0.5 // indirect
)

replace (
	k8s.io/api => ./staging/src/k8s.io/api
	k8s.io/apimachinery => ./staging/src/k8s.io/apimachinery
	k8s.io/component-base => ./staging/src/k8s.io/component-base
)
"#
}

const GO_FILE: &str = "/some/file.go";

#[test]
fn test_parse_go_mod() {
    let manifest = GoManifest::parse_go_mod(sample_go_mod()).unwrap();

    assert_eq!(manifest.root_module(), "k8s.io/kubernetes");
    assert!(manifest.external_modules().contains_key("google.golang.org/grpc"));
    assert!(manifest.external_modules().contains_key("github.com/aws/aws-sdk-go"));
    assert!(manifest.replace_directives().contains_key("k8s.io/api"));
    assert!(manifest.replace_directives().contains_key("k8s.io/component-base"));
}

#[test]
fn test_stdlib_imports() {
    let manifest = GoManifest::parse_go_mod(sample_go_mod()).unwrap();
    assert!(manifest.is_valid_import("fmt", GO_FILE));
    assert!(manifest.is_valid_import("net/http", GO_FILE));
    assert!(manifest.is_valid_import("encoding/json", GO_FILE));
    assert!(manifest.is_valid_import("context", GO_FILE));
}

#[test]
fn test_internal_imports() {
    let manifest = GoManifest::parse_go_mod(sample_go_mod()).unwrap();
    assert!(manifest.is_valid_import("k8s.io/kubernetes", GO_FILE));
    assert!(manifest.is_valid_import("k8s.io/kubernetes/pkg/api", GO_FILE));
    assert!(manifest.is_valid_import("k8s.io/kubernetes/cmd/kube-apiserver", GO_FILE));
}

#[test]
fn test_replaced_module_imports() {
    let manifest = GoManifest::parse_go_mod(sample_go_mod()).unwrap();
    assert!(manifest.is_valid_import("k8s.io/api", GO_FILE));
    assert!(manifest.is_valid_import("k8s.io/api/core/v1", GO_FILE));
    assert!(manifest.is_valid_import("k8s.io/apimachinery", GO_FILE));
    assert!(manifest.is_valid_import("k8s.io/apimachinery/pkg/types", GO_FILE));
    assert!(manifest.is_valid_import("k8s.io/component-base", GO_FILE));
    assert!(manifest.is_valid_import("k8s.io/component-base/config", GO_FILE));
}

#[test]
fn test_external_module_subpackages() {
    let manifest = GoManifest::parse_go_mod(sample_go_mod()).unwrap();
    assert!(manifest.is_valid_import("google.golang.org/grpc", GO_FILE));
    assert!(manifest.is_valid_import("google.golang.org/grpc/credentials", GO_FILE));
    assert!(manifest.is_valid_import("google.golang.org/grpc/metadata", GO_FILE));
    assert!(manifest.is_valid_import("github.com/aws/aws-sdk-go", GO_FILE));
    assert!(manifest.is_valid_import("github.com/aws/aws-sdk-go/aws", GO_FILE));
    assert!(manifest.is_valid_import("github.com/aws/aws-sdk-go/service/s3", GO_FILE));
}

#[test]
fn test_indirect_dependencies() {
    let manifest = GoManifest::parse_go_mod(sample_go_mod()).unwrap();
    assert!(manifest.is_valid_import("github.com/spf13/pflag", GO_FILE));
}

#[test]
fn test_invalid_imports() {
    let manifest = GoManifest::parse_go_mod(sample_go_mod()).unwrap();
    assert!(!manifest.is_valid_import("github.com/nonexistent/package", GO_FILE));
    assert!(!manifest.is_valid_import("example.com/fake/module", GO_FILE));
}

#[test]
fn test_single_line_require() {
    let content = r#"
module example.com/mymodule

go 1.21

require github.com/pkg/errors v0.9.1
"#;
    let manifest = GoManifest::parse_go_mod(content).unwrap();
    assert!(manifest.external_modules().contains_key("github.com/pkg/errors"));
}

#[test]
fn test_single_line_replace() {
    let content = r#"
module example.com/mymodule

go 1.21

replace example.com/old => example.com/new v1.0.0
"#;
    let manifest = GoManifest::parse_go_mod(content).unwrap();
    assert!(manifest.replace_directives().contains_key("example.com/old"));
}

#[test]
fn golang_test_stats() {
    let manifest = GoManifest::parse_go_mod(sample_go_mod()).unwrap();
    let stats = manifest.stats();
    assert!(stats.package_count > 0);
}

#[test]
fn go_mod_without_module_is_refused() {
    let err = GoManifest::parse_go_mod("go 1.21\n").err().unwrap();
    assert_eq!(err, "No module declaration found in go.mod");
}

#[test]
fn test_extract_package_name() {
    assert_eq!(extract_package_name("requests>=2.0"), "requests");
    assert_eq!(extract_package_name("pyswitchbot==0.40.0"), "pyswitchbot");
    assert_eq!(extract_package_name("aiohttp>=3.0,<4"), "aiohttp");
    assert_eq!(extract_package_name("package[extra]>=1.0"), "package");
    assert_eq!(extract_package_name("simple"), "simple");
    assert_eq!(
        extract_package_name("tuya-device-sharing-sdk==0.2.1"),
        "tuya-device-sharing-sdk"
    );
}

#[test]
fn test_import_matches_package() {
    // Direct match
    assert!(import_matches_package("requests", "requests"));

    // py prefix
    assert!(import_matches_package("switchbot", "pyswitchbot"));
    assert!(import_matches_package("rfxtrx", "pyrfxtrx"));

    // python- prefix
    assert!(import_matches_package("miio", "python-miio"));
    assert!(import_matches_package("vlc", "python-vlc"));

    // Namespace packages
    assert!(import_matches_package("jaraco", "jaraco.abode"));
    assert!(import_matches_package("jaraco", "jaraco-abode"));

    // .py suffix
    assert!(import_matches_package("mastodon", "Mastodon.py"));

    // Hyphens vs underscores
    assert!(import_matches_package("flask_restful", "flask-restful"));
    assert!(import_matches_package("some_package", "some-package"));

    // Async variations
    assert!(import_matches_package("evohomeasync", "evohome-async"));

    // Non-matches
    assert!(!import_matches_package("notrelated", "something-else"));
}

#[test]
fn requirement_markers_end_the_name() {
    assert_eq!(extract_package_name("package ; python_version>'3'"), "package");
    assert!(import_matches_package("foo", "foo-client"));
    assert!(import_matches_package("foo", "foo-api"));
    assert!(import_matches_package("Requests", "requests"));
}

#[test]
fn test_detect_manifest_type_none() {
    let markers = ProjectMarkers {
        home_assistant_components: false,
        pyproject_toml: false,
        requirements_txt: false,
        setup_py: false,
        setup_cfg: false,
        go_mod: false,
    };
    assert_eq!(detect_manifest_type(&markers), ManifestType::NoManifest);
}

#[test]
fn detect_manifest_type_prefers_home_assistant() {
    let markers = ProjectMarkers {
        home_assistant_components: true,
        pyproject_toml: true,
        requirements_txt: false,
        setup_py: false,
        setup_cfg: false,
        go_mod: true,
    };
    assert_eq!(detect_manifest_type(&markers), ManifestType::HomeAssistant);
    let python = ProjectMarkers { home_assistant_components: false, ..markers };
    assert_eq!(detect_manifest_type(&python), ManifestType::PythonStandard);
    let go = ProjectMarkers { pyproject_toml: false, ..python };
    assert_eq!(detect_manifest_type(&go), ManifestType::Go);
}

#[test]
fn test_no_manifest_rejects_all() {
    let manifest = NoManifest::new();
    let path = "/some/file.py";

    assert!(!manifest.is_valid_import("requests", path));
    assert!(!manifest.is_valid_import("numpy", path));
    assert!(!manifest.is_valid_import("any_package", path));
}

#[test]
fn test_no_manifest_empty_declared() {
    let manifest = NoManifest::new();
    let path = "/some/file.py";

    assert!(manifest.get_declared_imports(path).is_empty());
}

#[test]
fn test_no_manifest_no_scope() {
    let manifest = NoManifest::new();
    let path = "/some/file.py";

    assert!(manifest.get_scope(path).is_none());
}

fn python_manifest(requirements: &str) -> PythonManifest {
    let sources = PythonSources {
        requirements: vec![requirements.to_string()],
        pyproject_toml: None,
        setup_cfg: None,
    };
    PythonManifest::from_root("/tmp/project", &sources)
}

#[test]
fn test_parse_requirements_txt() {
    let manifest = python_manifest(
        r#"
# Comment
requests>=2.0
flask==2.0.1
numpy~=1.20
pandas[sql]>=1.3.0
-r other-requirements.txt
--index-url https://pypi.org/simple
"#,
    );
    let declared = manifest.get_declared_imports("x.py");
    assert!(declared.contains(&"requests".to_string()));
    assert!(declared.contains(&"flask".to_string()));
    assert!(declared.contains(&"numpy".to_string()));
    assert!(declared.contains(&"pandas".to_string()));
    assert!(!declared.contains(&"-r".to_string()));
}

#[test]
fn test_parse_pyproject_toml() {
    let sources = PythonSources {
        requirements: vec![],
        pyproject_toml: Some(
            r#"
[project]
name = "myproject"
dependencies = [
    "requests>=2.0",
    "flask",
]
"#
            .to_string(),
        ),
        setup_cfg: None,
    };
    let manifest = PythonManifest::from_root("/tmp/project", &sources);
    let declared = manifest.get_declared_imports("x.py");
    assert!(declared.contains(&"requests".to_string()));
    assert!(declared.contains(&"flask".to_string()));
    assert_eq!(declared.len(), 2);
}

#[test]
fn setup_cfg_install_requires() {
    let sources = PythonSources {
        requirements: vec![],
        pyproject_toml: None,
        setup_cfg: Some(
            "[metadata]\nname = demo\n\n[options]\ninstall_requires =\n    Click>=7.0\n    attrs\n[extras]\nx = y\n"
                .to_string(),
        ),
    };
    let manifest = PythonManifest::from_root("/tmp/project", &sources);
    assert_eq!(
        manifest.get_declared_imports("x.py"),
        vec!["click".to_string(), "attrs".to_string()]
    );
}

#[test]
fn test_is_valid_import_py_prefix() {
    let manifest = python_manifest("pyswitchbot==0.40.0\n");
    assert!(manifest.is_valid_import("switchbot", "/tmp/project/test.py"));
}

#[test]
fn test_is_valid_import_namespace() {
    let manifest = python_manifest("jaraco.abode>=1.0\n");
    assert!(manifest.is_valid_import("jaraco", "/tmp/project/test.py"));
}

#[test]
fn python_test_stats() {
    let manifest = python_manifest("requests\nflask\nnumpy\n");
    let stats = manifest.stats();
    assert_eq!(stats.scoped_count, 0);
    assert_eq!(stats.package_count, 3);
}

#[test]
fn python_manifest_scope_is_root_name() {
    let manifest = python_manifest("requests\n");
    assert_eq!(manifest.get_scope("x.py"), Some("project".to_string()));
}

fn component(domain: &str, requirements: &[&str], loggers: &[&str]) -> ComponentData {
    ComponentData {
        domain: domain.to_string(),
        requirements: requirements.iter().map(|s| s.to_string()).collect(),
        loggers: loggers.iter().map(|s| s.to_string()).collect(),
        dependencies: vec![],
    }
}

fn ha_manifest(name: &str, data: ComponentData) -> HomeAssistantManifest {
    let dir = format!("/ha/homeassistant/components/{}", name);
    HomeAssistantManifest::from_root("/ha", vec![(dir, data)], &vec![])
}

fn ha_file(name: &str) -> String {
    format!("/ha/homeassistant/components/{}/__init__.py", name)
}

#[test]
fn test_parse_component_manifest() {
    let manifest = ha_manifest(
        "switchbot",
        component("switchbot", &["pyswitchbot==0.40.0"], &["switchbot"]),
    );
    assert_eq!(manifest.stats().scoped_count, 1);
    assert!(manifest.is_valid_import("switchbot", &ha_file("switchbot")));
}

#[test]
fn test_loggers_field_authoritative() {
    let manifest = ha_manifest(
        "abode",
        component("abode", &["jaraco.abode==5.2.0"], &["jaraco.abode", "abodepy"]),
    );
    let file = ha_file("abode");
    assert!(manifest.is_valid_import("abodepy", &file));
    assert!(manifest.is_valid_import("jaraco", &file));
}

#[test]
fn test_fuzzy_match_tuya() {
    let manifest = ha_manifest("tuya", component("tuya", &["tuya-device-sharing-sdk==0.2.1"], &[]));
    assert!(manifest.is_valid_import("tuya_sharing", &ha_file("tuya")));
}

#[test]
fn test_fuzzy_match_paho() {
    let manifest = ha_manifest("mqtt", component("mqtt", &["paho-mqtt==2.1.0"], &[]));
    assert!(manifest.is_valid_import("paho", &ha_file("mqtt")));
}

#[test]
fn test_fuzzy_match_synology() {
    let manifest = ha_manifest(
        "synology_dsm",
        component("synology_dsm", &["py-synologydsm-api==2.5.3"], &[]),
    );
    let file = ha_file("synology_dsm");
    assert!(manifest.is_valid_import("synology_dsm", &file));
    assert!(manifest.is_valid_import("synologydsm", &file));
}

#[test]
fn test_template_files_skipped() {
    let manifest = HomeAssistantManifest::from_root("/ha", vec![], &vec![]);
    let template_file = "/ha/script/scaffold/templates/integration/__init__.py";
    assert!(manifest.is_valid_import("any_import", template_file));
}

#[test]
fn test_get_scope() {
    let manifest = ha_manifest("mqtt", component("mqtt", &[], &[]));
    assert_eq!(manifest.get_scope(&ha_file("mqtt")), Some("mqtt".to_string()));
}

#[test]
fn test_known_submodule_didl_lite() {
    let manifest = ha_manifest(
        "dlna_dmr",
        component("dlna_dmr", &["async-upnp-client==0.38.0"], &[]),
    );
    assert!(manifest.is_valid_import("didl_lite", &ha_file("dlna_dmr")));
}

#[test]
fn test_known_submodule_inelsmqtt() {
    let manifest = ha_manifest("inels", component("inels", &["elkoep-aio-mqtt==0.1.0b4"], &[]));
    assert!(manifest.is_valid_import("inelsmqtt", &ha_file("inels")));
}

#[test]
fn test_homeassistant_internal_packages() {
    let manifest = ha_manifest("frontend", component("frontend", &[], &[]));
    let file = ha_file("frontend");
    assert!(manifest.is_valid_import("hass_frontend", &file));
    assert!(manifest.is_valid_import("homeassistant_frontend", &file));
    assert!(manifest.is_valid_import("insteon_frontend", &file));
}

#[test]
fn home_assistant_unknown_import_outside_components() {
    let manifest = ha_manifest("mqtt", component("mqtt", &["paho-mqtt==2.1.0"], &[]));
    assert!(!manifest.is_valid_import("requests", "/ha/script/other.py"));
    assert!(manifest.get_scope("/ha/script/other.py").is_none());
}

#[test]
fn home_assistant_global_requirements_and_declared() {
    let manifest = HomeAssistantManifest::from_root(
        "/ha",
        vec![(
            "/ha/homeassistant/components/abode".to_string(),
            component("abode", &["jaraco.abode==5.2.0"], &["abodepy"]),
        )],
        &vec!["# pinned\nrequests==2.31\n-r more.txt\n".to_string()],
    );
    assert!(manifest.is_valid_import("requests", "/ha/script/other.py"));
    assert_eq!(
        manifest.get_declared_imports(&ha_file("abode")),
        vec![
            "requests".to_string(),
            "jaraco.abode".to_string(),
            "abodepy".to_string()
        ]
    );
    let stats = manifest.stats();
    assert_eq!(stats.scoped_count, 1);
    assert_eq!(stats.package_count, 3);
}

#[test]
fn fuzzy_match_first_word_and_suffix() {
    let reqs = vec!["paho-mqtt==2.1.0".to_string()];
    assert!(fuzzy_match_requirements("paho", &reqs));
    let reqs = vec!["somelib-client==1.0".to_string()];
    assert!(fuzzy_match_requirements("somelib", &reqs));
    let reqs = vec!["alpha-beta==1.0".to_string()];
    assert!(!fuzzy_match_requirements("gamma", &reqs));
}

#[test]
fn any_manifest_scope_and_stats() {
    let content = "module example.com/app\n\ngo 1.21\n\nrequire github.com/pkg/errors v0.9.1\n";
    let go = AnyManifest::Go(GoManifest::parse_go_mod(content).unwrap());
    assert_eq!(go.get_scope("main.go"), Some("example.com/app".to_string()));
    let stats = go.stats();
    assert_eq!(stats.scoped_count, 0);
    assert_eq!(stats.package_count, 2);
    let none = AnyManifest::NoManifest(NoManifest::new());
    assert_eq!(none.get_scope("main.go"), None);
    assert_eq!(none.stats().package_count, 0);
}
