use rtdlib::apipe::{rs_field_name, rs_type, type_items, Apipe};

fn trait_doc() -> String {
    "<div class=\"textblock\">This class is an abstract base class. Represents the status of a user.</div><div class=\"contents\"><p>Inherited by <a class=\"el\">JsonValue</a>, <a class=\"el\">GetJsonString</a> and <a class=\"el\">RealSubclass</a>.</p></div>"
    .to_string()
}

fn holder_doc() -> String {
    "<div class=\"textblock\">Holds one polymorphic field.</div><div class=\"memberdecls\"><table><tr class=\"heading\"><td><div class=\"heading\">Public Fields</div></td></tr><tr class=\"memitem:a1\"><td class=\"memItemLeft\">object_ptr&lt; userStatus &gt;</td><td class=\"memItemRight\">status_</td></tr><tr class=\"memdesc:a1\"><td class=\"mdescLeft\">&#160;</td><td class=\"mdescRight\">Current status.</td></tr><tr class=\"memitem:a2\"><td class=\"memItemLeft\">object_ptr&lt; plain &gt;</td><td class=\"memItemRight\">extra_data_</td></tr><tr class=\"memdesc:a2\"><td class=\"mdescLeft\">&#160;</td><td class=\"mdescRight\">Plain payload.</td></tr><tr class=\"memitem:a3\"><td class=\"memItemLeft\">std::vector&lt; std::string &gt;</td><td class=\"memItemRight\">labels_</td></tr><tr class=\"memdesc:a3\"><td class=\"mdescLeft\">&#160;</td><td class=\"mdescRight\">Attached labels.</td></tr></table></div>"
    .to_string()
}

fn plain_doc() -> String {
    "<div class=\"textblock\">An ordinary record type.</div>".to_string()
}

fn child_doc() -> String {
    "<div class=\"textblock\">A concrete subclass.</div><a class=\"el\">RealSubclass</a><a class=\"el\">UserStatus</a>"
    .to_string()
}

fn make_resolver() -> Apipe {
    Apipe::new(vec![
        ("UserStatus".to_string(), trait_doc()),
        ("Plain".to_string(), plain_doc()),
        ("Holder".to_string(), holder_doc()),
        ("RealSubclass".to_string(), child_doc()),
    ])
}

#[test]
fn lookup_is_case_insensitive() {
    let a = make_resolver();
    let f1 = a.fields("Holder").expect("fields");
    let f2 = a.fields("holder").expect("fields");
    let f3 = a.fields("HOLDER").expect("fields");
    assert_eq!(f1.len(), f2.len());
    assert_eq!(f1.len(), f3.len());
    for i in 0..f1.len() {
        assert_eq!(f1[i].name, f2[i].name);
        assert_eq!(f1[i].class, f3[i].class);
        assert_eq!(f1[i].description, f2[i].description);
        assert_eq!(f1[i].is_trait, f3[i].is_trait);
    }
    assert_eq!(a.is_trait("UserStatus"), a.is_trait("userstatus"));
    assert_eq!(a.is_trait("UserStatus"), a.is_trait("USERSTATUS"));
    assert_eq!(
        a.description("UserStatus").cloned(),
        a.description("userSTATUS").cloned()
    );
}

#[test]
fn trait_flag_follows_description() {
    let a = make_resolver();
    // the description holds "This class is an abstract base class."
    assert!(a.is_trait("UserStatus"));
    // an ordinary description is not a trait
    assert!(!a.is_trait("Plain"));
    // a class with no description at all is not a trait
    let b = Apipe::new(vec![("Bare".to_string(), "<p>no blocks here</p>".to_string())]);
    assert!(b.description("Bare").is_none());
    assert!(!b.is_trait("Bare"));
}

#[test]
fn description_is_trimmed() {
    let a = Apipe::new(vec![(
        "Padded".to_string(),
        "<div class=\"textblock\">\n   An indented description.  \n</div>".to_string(),
    )]);
    assert_eq!(
        a.description("Padded").cloned(),
        Some("An indented description.".to_string())
    );
}

#[test]
fn subclasses_skip_artifacts_and_capitalize() {
    let a = make_resolver();
    let subs = a.sub_classes("UserStatus").expect("subclasses");
    assert_eq!(subs, &vec!["RealSubclass".to_string()]);
}

#[test]
fn tokenizing_splits_at_every_bracket() {
    let toks = type_items("Vec<Box<X>>");
    assert_eq!(
        toks,
        vec![
            "Vec".to_string(),
            "<".to_string(),
            "Box".to_string(),
            "<".to_string(),
            "X".to_string(),
            ">".to_string(),
            "".to_string(),
            ">".to_string(),
        ]
    );
    assert_eq!(type_items("Foo"), Vec::<String>::new());
}

#[test]
fn trait_fields_are_boxed_and_plain_fields_are_not() {
    let a = make_resolver();
    let fields = a.fields("Holder").expect("fields");
    assert_eq!(fields.len(), 3);
    assert_eq!(fields[0].name, "status");
    assert_eq!(fields[0].class, "Box<UserStatus>");
    assert!(fields[0].is_trait);
    assert_eq!(fields[0].description, "Current status.");
    assert_eq!(fields[1].name, "extra_data");
    assert_eq!(fields[1].class, "Plain");
    assert!(!fields[1].is_trait);
    assert_eq!(fields[2].name, "labels");
    assert_eq!(fields[2].class, "Vec<String>");
    assert!(!fields[2].is_trait);
}

#[test]
fn identifier_normalization() {
    assert_eq!(rs_field_name("length_".to_string()), "length");
    assert_eq!(rs_field_name("type_".to_string()), "type_");
    assert_eq!(rs_field_name("name".to_string()), "name");
    // only the single escaping underscore is removed
    assert_eq!(rs_field_name("ab__".to_string()), "ab_");
    assert_eq!(rs_field_name("_".to_string()), "");
}

#[test]
fn type_normalization() {
    assert_eq!(rs_type("std::int32_t".to_string()), "i32");
    assert_eq!(rs_type("std::int64_t".to_string()), "i64");
    assert_eq!(rs_type("double".to_string()), "f64");
    assert_eq!(
        rs_type("std::vector< std::string >".to_string()),
        "Vec<String>"
    );
    assert_eq!(rs_type("object_ptr< userStatus >".to_string()), "UserStatus");
}

#[test]
fn construction_is_deterministic() {
    let a = make_resolver();
    let b = make_resolver();
    let names_a = a.names();
    let names_b = b.names();
    assert_eq!(names_a, names_b);
    for name in &names_a {
        assert_eq!(a.is_trait(name), b.is_trait(name));
        assert_eq!(a.description(name).cloned(), b.description(name).cloned());
        assert_eq!(a.father_class(name).cloned(), b.father_class(name).cloned());
        assert_eq!(a.sub_classes(name).cloned(), b.sub_classes(name).cloned());
        let fa = a.fields(name);
        let fb = b.fields(name);
        assert_eq!(fa.is_some(), fb.is_some());
        if let (Some(fa), Some(fb)) = (fa, fb) {
            assert_eq!(fa.len(), fb.len());
            for i in 0..fa.len() {
                assert_eq!(fa[i].name, fb[i].name);
                assert_eq!(fa[i].class, fb[i].class);
                assert_eq!(fa[i].description, fb[i].description);
                assert_eq!(fa[i].is_trait, fb[i].is_trait);
            }
        }
    }
}

#[test]
fn father_class_is_second_inheritance_link() {
    let a = make_resolver();
    assert_eq!(
        a.father_class("RealSubclass").cloned(),
        Some("UserStatus".to_string())
    );
    // no inheritance links at all: no parent recorded
    assert!(a.father_class("Plain").is_none());
}

#[test]
fn names_exclude_skip_listed_entries() {
    let a = Apipe::new(vec![
        ("JsonValue".to_string(), plain_doc()),
        ("Real".to_string(), plain_doc()),
        ("SaveApplicationLogEvent".to_string(), plain_doc()),
    ]);
    assert_eq!(a.names(), vec!["Real".to_string()]);
}

#[test]
fn is_skip_matches_artifact_names() {
    assert!(Apipe::is_skip("JsonValue"));
    assert!(Apipe::is_skip("jsonObjectMember"));
    assert!(Apipe::is_skip("testGetJsonString"));
    assert!(Apipe::is_skip("saveApplicationLogEvent"));
    assert!(Apipe::is_skip("getJsonValue"));
    assert!(!Apipe::is_skip("UserStatus"));
}

#[test]
fn unknown_names_answer_not_present() {
    let a = make_resolver();
    assert!(!a.is_trait("Nowhere"));
    assert!(a.description("Nowhere").is_none());
    assert!(a.father_class("Nowhere").is_none());
    assert!(a.sub_classes("Nowhere").is_none());
    assert!(a.fields("Nowhere").is_none());
}

#[test]
fn class_without_fields_block_has_no_fields() {
    let a = make_resolver();
    assert!(a.fields("Plain").is_none());
}
