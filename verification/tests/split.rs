use rio_xml::split_iri;

#[test]
fn test_split_iri() {
    assert_eq!(
        split_iri("http://schema.org/Person"),
        ("http://schema.org/", "Person")
    );
    assert_eq!(split_iri("http://schema.org/"), ("http://schema.org/", ""));
}

#[test]
fn split_reconstructs_the_iri() {
    let iris = [
        "http://schema.org/Person",
        "http://schema.org/",
        "http://www.w3.org/1999/02/22-rdf-syntax-ns#type",
        "urn:isbn:0451450523",
        "",
        "///",
        "mailto:someone@example.org",
        "http://example.com/a/b#c-d.e_f",
    ];
    for iri in iris {
        let (ns, local) = split_iri(iri);
        let mut joined = String::from(ns);
        joined.push_str(local);
        assert_eq!(joined, iri);
    }
}

#[test]
fn split_fallback_gives_empty_local_part() {
    // The IRI ends in a separator: nothing after it can start a name.
    assert_eq!(split_iri("http://schema.org/").1, "");
    // Only symbols: every character is a separator.
    assert_eq!(split_iri("///").1, "");
    // Every character is a name character: no separator at all.
    assert_eq!(split_iri("urn:name"), ("urn:name", ""));
    assert_eq!(split_iri(""), ("", ""));
}

#[test]
fn split_takes_the_last_name_run() {
    assert_eq!(
        split_iri("http://www.w3.org/1999/02/22-rdf-syntax-ns#type"),
        ("http://www.w3.org/1999/02/22-rdf-syntax-ns#", "type")
    );
    // The run after the last separator starts with digits, which cannot
    // start an XML name: the local part starts at the first letter.
    assert_eq!(
        split_iri("http://example.com/123abc"),
        ("http://example.com/123", "abc")
    );
}
