use celeste_saves::event::Name;
use xml::name::OwnedName;

fn name(local_name: &str, namespace: Option<&str>, prefix: Option<&str>) -> Name {
    Name {
        local_name: local_name.to_string(),
        namespace: namespace.map(str::to_string),
        prefix: prefix.map(str::to_string),
    }
}

#[test]
fn local_names_have_no_other_part() {
    assert_eq!(Name::local("AreaStats"), name("AreaStats", None, None));
    assert_eq!(Name::local("AreaStats").text(), "AreaStats");
    assert_eq!(Name::local("").text(), "");
}

#[test]
fn names_are_written_out_with_all_their_parts() {
    assert_eq!(name("string", None, Some("xsi")).text(), "xsi:string");
    assert_eq!(name("string", Some("urn:s"), None).text(), "{urn:s}string");
    assert_eq!(name("string", Some("urn:s"), Some("xsi")).text(), "{urn:s}xsi:string");
    assert_eq!(name("string", Some(""), Some("")).text(), "{}:string");
}

#[test]
fn names_are_written_out_as_the_parser_writes_them() {
    let parts = [None, Some(""), Some("p"), Some("urn:x")];
    for local_name in ["", "Name", "a:b", "{x}"] {
        for namespace in parts {
            for prefix in parts {
                let theirs = OwnedName {
                    local_name: local_name.to_string(),
                    namespace: namespace.map(str::to_string),
                    prefix: prefix.map(str::to_string),
                };
                assert_eq!(name(local_name, namespace, prefix).text(), theirs.to_string());
            }
        }
    }
}

#[test]
fn reading_a_name_compares_the_written_text() {
    assert!(Name::local("Version").reads("Version"));
    assert!(!Name::local("Version").reads("version"));
    assert!(name("b", None, Some("a")).reads("a:b"));
    assert!(!name("b", None, Some("a")).reads("b"));
    assert!(name("b", Some("n"), None).reads("{n}b"));
    assert!(!name("b", Some("n"), None).reads("b"));
    assert!(Name::local("a:b").reads("a:b"));
    assert!(name("", Some("n"), Some("p")).reads("{n}p:"));
}
