use disclosure_provider::attributes::Attributes;
use disclosure_provider::config::{Config, Error};

fn s(text: &str) -> String {
    text.to_string()
}

fn catalog() -> Attributes {
    let mut attributes = Attributes::new();
    attributes.insert(s("email"), s("a@b.com"));
    attributes.insert(s("name"), s("Alice"));
    attributes.insert(s("phone"), s("0612345678"));
    attributes
}

fn config() -> Config {
    Config::new(s("https://idp.example"), s("http://idp.internal"), catalog(), true)
}

#[test]
fn new_attributes_are_empty() {
    let attributes = Attributes::new();
    assert_eq!(attributes.len(), 0);
    assert!(attributes.entries().is_empty());
    assert_eq!(attributes.get(&s("email")), None);
    assert!(!attributes.contains(&s("email")));
}

#[test]
fn insert_adds_a_name() {
    let mut attributes = Attributes::new();
    attributes.insert(s("email"), s("a@b.com"));
    assert_eq!(attributes.len(), 1);
    assert_eq!(attributes.get(&s("email")), Some(&s("a@b.com")));
    assert!(attributes.contains(&s("email")));
    assert!(!attributes.contains(&s("Email")));
    assert_eq!(attributes.get(&s("")), None);
}

#[test]
fn insert_replaces_the_value_of_a_known_name() {
    let mut attributes = catalog();
    attributes.insert(s("name"), s("Bob"));
    assert_eq!(attributes.len(), 3);
    assert_eq!(attributes.get(&s("name")), Some(&s("Bob")));
    assert_eq!(attributes.get(&s("email")), Some(&s("a@b.com")));
    assert_eq!(attributes.get(&s("phone")), Some(&s("0612345678")));
    assert_eq!(
        attributes.entries(),
        &vec![(s("email"), s("a@b.com")), (s("name"), s("Bob")), (s("phone"), s("0612345678"))]
    );
}

#[test]
fn entries_hold_each_name_once() {
    let mut attributes = Attributes::new();
    attributes.insert(s("a"), s("1"));
    attributes.insert(s("b"), s("2"));
    attributes.insert(s("a"), s("3"));
    attributes.insert(s("b"), s("4"));
    assert_eq!(attributes.entries(), &vec![(s("a"), s("3")), (s("b"), s("4"))]);
    assert_eq!(attributes.len(), 2);
}

#[test]
fn config_gives_back_its_parts() {
    let config = config();
    assert_eq!(config.server_url(), "https://idp.example");
    assert_eq!(config.internal_url(), "http://idp.internal");
    assert!(config.with_session());
    assert_eq!(config.attributes().len(), 3);
    assert_eq!(config.attributes().get(&s("name")), Some(&s("Alice")));
    let plain = Config::new(s("u"), s("i"), Attributes::new(), false);
    assert!(!plain.with_session());
    assert_eq!(plain.attributes().len(), 0);
}

#[test]
fn verify_accepts_names_of_the_catalog() {
    let config = config();
    assert!(config.verify_attributes(&[]).is_ok());
    assert!(config.verify_attributes(&[s("email")]).is_ok());
    assert!(config.verify_attributes(&[s("phone"), s("email"), s("name")]).is_ok());
    assert!(config.verify_attributes(&[s("email"), s("email")]).is_ok());
}

#[test]
fn verify_names_the_first_unknown_attribute() {
    let config = config();
    let error = config.verify_attributes(&[s("email"), s("bsn"), s("age")]).unwrap_err();
    assert!(matches!(error, Error::UnknownAttribute(ref name) if name == "bsn"));
    let error = config.verify_attributes(&[s("age"), s("bsn")]).unwrap_err();
    assert!(matches!(error, Error::UnknownAttribute(ref name) if name == "age"));
    let error = config.verify_attributes(&[s("")]).unwrap_err();
    assert!(matches!(error, Error::UnknownAttribute(ref name) if name.is_empty()));
}

#[test]
fn verify_refuses_everything_on_an_empty_catalog() {
    let config = Config::new(s("u"), s("i"), Attributes::new(), false);
    assert!(config.verify_attributes(&[]).is_ok());
    let error = config.verify_attributes(&[s("email")]).unwrap_err();
    assert!(matches!(error, Error::UnknownAttribute(ref name) if name == "email"));
}

#[test]
fn map_gives_the_catalog_values_of_the_requested_names() {
    let config = config();
    let values = config.map_attributes(&[s("phone"), s("email")]).unwrap();
    assert_eq!(values.len(), 2);
    assert_eq!(values.get(&s("phone")), Some(&s("0612345678")));
    assert_eq!(values.get(&s("email")), Some(&s("a@b.com")));
    assert_eq!(values.get(&s("name")), None);
}

#[test]
fn map_of_nothing_is_empty() {
    let values = config().map_attributes(&[]).unwrap();
    assert_eq!(values.len(), 0);
}

#[test]
fn map_takes_a_repeated_name_once() {
    let values = config().map_attributes(&[s("email"), s("name"), s("email")]).unwrap();
    assert_eq!(values.len(), 2);
    assert_eq!(values.entries(), &vec![(s("email"), s("a@b.com")), (s("name"), s("Alice"))]);
}

#[test]
fn map_names_the_first_unknown_attribute() {
    let config = config();
    let error = config.map_attributes(&[s("email"), s("bsn"), s("age")]).unwrap_err();
    assert!(matches!(error, Error::UnknownAttribute(ref name) if name == "bsn"));
}

#[test]
fn verify_and_map_agree() {
    let config = config();
    let requests: Vec<Vec<String>> = vec![
        vec![],
        vec![s("email")],
        vec![s("email"), s("name"), s("phone")],
        vec![s("bsn")],
        vec![s("name"), s("bsn")],
        vec![s("bsn"), s("name")],
    ];
    for request in requests.iter() {
        let verified = config.verify_attributes(request);
        let mapped = config.map_attributes(request);
        assert_eq!(verified.is_ok(), mapped.is_ok());
        if let (Err(Error::UnknownAttribute(a)), Err(Error::UnknownAttribute(b))) =
            (&verified, &mapped)
        {
            assert_eq!(a, b);
        }
        if let Ok(values) = mapped {
            for name in request.iter() {
                assert_eq!(values.get(name), config.attributes().get(name));
            }
            for (name, _) in values.entries().iter() {
                assert!(request.contains(name));
            }
        }
    }
}

#[test]
fn unknown_attribute_message() {
    let error = Error::UnknownAttribute(s("bsn"));
    assert_eq!(error.message(), "Unknown attribute bsn");
    let error = Error::UnknownAttribute(s(""));
    assert_eq!(error.message(), "Unknown attribute ");
}
