use sql_extractor::command::Commands;
use sql_extractor::record::{decode, DecodeError, PageType, Record};
use sql_extractor::value::Value;

fn text(s: &str) -> Value {
    Value::Text(s.to_string())
}

#[test]
fn page_tuple_decodes_and_is_written() {
    let tuple = vec![Value::Int(7), Value::Int(0), text("Main_Page"), Value::Int(1), Value::Null];
    let rec = decode(Commands::Page, &tuple, 0).unwrap();
    match &rec {
        Record::Page { id, namespace, title, is_redirect, lang } => {
            assert_eq!(*id, 7);
            assert_eq!(*namespace, 0);
            assert_eq!(title, "Main_Page");
            assert!(*is_redirect);
            assert_eq!(lang.clone().unwrap_or(String::new()), "");
        }
        _ => panic!("not a page"),
    }
    assert_eq!(rec.fields(), vec!["7", "0", "Main_Page", "true", ""]);
    assert_eq!(rec.line(), b"7,0,Main_Page,true,\n".to_vec());
    assert_eq!(rec.table(), Commands::Page);
}

#[test]
fn page_with_language_and_boolean_flag() {
    let tuple = vec![Value::Int(8), Value::Int(14), text("Cats"), Value::Bool(false), text("en")];
    let rec = decode(Commands::Page, &tuple, 3).unwrap();
    assert_eq!(rec.fields(), vec!["8", "14", "Cats", "false", "en"]);
    assert_eq!(rec.line(), b"8,14,Cats,false,en\n".to_vec());
}

#[test]
fn category_link_tuple_decodes() {
    let tuple = vec![Value::Int(5), text("Animals"), text("uca-default"), text("subcat")];
    let rec = decode(Commands::CategoryLinks, &tuple, 0).unwrap();
    match &rec {
        Record::CategoryLink { from, to, collation, kind } => {
            assert_eq!(*from, 5);
            assert_eq!(to, "Animals");
            assert_eq!(collation, "uca-default");
            assert_eq!(*kind, PageType::Subcat);
        }
        _ => panic!("not a category link"),
    }
    assert_eq!(rec.line(), b"5,Animals,uca-default,subcat\n".to_vec());
}

#[test]
fn category_link_types() {
    for (name, kind) in [("page", PageType::Page), ("subcat", PageType::Subcat), ("file", PageType::File)] {
        let tuple = vec![Value::Int(1), text("A"), text("c"), text(name)];
        match decode(Commands::CategoryLinks, &tuple, 0).unwrap() {
            Record::CategoryLink { kind: k, .. } => assert_eq!(k, kind),
            _ => panic!("not a category link"),
        }
        assert_eq!(kind.name(), name);
    }
    let tuple = vec![Value::Int(1), text("A"), text("c"), text("Page")];
    assert_eq!(
        decode(Commands::CategoryLinks, &tuple, 9).unwrap_err(),
        DecodeError::Field { index: 9, position: 3 }
    );
}

#[test]
fn short_category_link_is_refused_with_both_lengths() {
    let tuple = vec![Value::Int(5), text("Animals")];
    assert_eq!(
        decode(Commands::CategoryLinks, &tuple, 12).unwrap_err(),
        DecodeError::Arity { index: 12, expected: 4, actual: 2 }
    );
}

#[test]
fn arity_of_each_table() {
    assert_eq!(Commands::LangLinks.columns(), 3);
    assert_eq!(Commands::Iwlinks.columns(), 3);
    assert_eq!(Commands::Category.columns(), 5);
    assert_eq!(Commands::CategoryLinks.columns(), 4);
    assert_eq!(Commands::Page.columns(), 5);
    for table in [Commands::LangLinks, Commands::Iwlinks, Commands::Category, Commands::CategoryLinks, Commands::Page] {
        assert_eq!(
            decode(table, &vec![], 0).unwrap_err(),
            DecodeError::Arity { index: 0, expected: table.columns(), actual: 0 }
        );
        assert_eq!(table.header().len(), table.columns());
    }
    let long = vec![Value::Int(1), text("a"), text("b"), text("c")];
    assert_eq!(
        decode(Commands::LangLinks, &long, 2).unwrap_err(),
        DecodeError::Arity { index: 2, expected: 3, actual: 4 }
    );
}

#[test]
fn arity_is_tested_before_the_values() {
    let tuple = vec![text("x"), Value::Null];
    assert_eq!(
        decode(Commands::Page, &tuple, 1).unwrap_err(),
        DecodeError::Arity { index: 1, expected: 5, actual: 2 }
    );
}

#[test]
fn leftmost_refused_value_is_reported() {
    let tuple = vec![Value::Int(1), Value::Int(2), Value::Int(3)];
    assert_eq!(
        decode(Commands::LangLinks, &tuple, 4).unwrap_err(),
        DecodeError::Field { index: 4, position: 1 }
    );
    let tuple = vec![Value::Int(-1), Value::Int(2), Value::Int(3)];
    assert_eq!(
        decode(Commands::Iwlinks, &tuple, 4).unwrap_err(),
        DecodeError::Field { index: 4, position: 0 }
    );
}

#[test]
fn negative_identifiers_and_namespaces_are_refused() {
    let tuple = vec![Value::Int(-7), Value::Int(0), text("T"), Value::Int(0), Value::Null];
    assert_eq!(
        decode(Commands::Page, &tuple, 0).unwrap_err(),
        DecodeError::Field { index: 0, position: 0 }
    );
    let tuple = vec![Value::Int(7), Value::Int(-1), text("T"), Value::Int(0), Value::Null];
    assert_eq!(
        decode(Commands::Page, &tuple, 0).unwrap_err(),
        DecodeError::Field { index: 0, position: 1 }
    );
}

#[test]
fn flags_take_zero_one_and_booleans_only() {
    let tuple = vec![Value::Int(7), Value::Int(0), text("T"), Value::Int(2), Value::Null];
    assert_eq!(
        decode(Commands::Page, &tuple, 0).unwrap_err(),
        DecodeError::Field { index: 0, position: 3 }
    );
    let tuple = vec![Value::Int(7), Value::Int(0), text("T"), text("1"), Value::Null];
    assert_eq!(
        decode(Commands::Page, &tuple, 0).unwrap_err(),
        DecodeError::Field { index: 0, position: 3 }
    );
    let tuple = vec![Value::Int(7), Value::Int(0), text("T"), Value::Int(0), Value::Int(1)];
    assert_eq!(
        decode(Commands::Page, &tuple, 0).unwrap_err(),
        DecodeError::Field { index: 0, position: 4 }
    );
}

#[test]
fn null_is_no_text() {
    let tuple = vec![Value::Int(1), Value::Null, text("T")];
    assert_eq!(
        decode(Commands::LangLinks, &tuple, 0).unwrap_err(),
        DecodeError::Field { index: 0, position: 1 }
    );
}

#[test]
fn category_counts_may_be_negative() {
    let tuple = vec![Value::Int(3), text("Cats"), Value::Int(-2), Value::Int(0), Value::Int(15)];
    let rec = decode(Commands::Category, &tuple, 0).unwrap();
    assert_eq!(rec.fields(), vec!["3", "Cats", "-2", "0", "15"]);
    assert_eq!(rec.line(), b"3,Cats,-2,0,15\n".to_vec());
    let tuple = vec![Value::Int(3), text("Cats"), Value::Null, Value::Int(0), Value::Int(15)];
    assert_eq!(
        decode(Commands::Category, &tuple, 0).unwrap_err(),
        DecodeError::Field { index: 0, position: 2 }
    );
}

#[test]
fn language_and_interwiki_links_decode() {
    let tuple = vec![Value::Int(10), text("de"), text("Hauptseite")];
    let rec = decode(Commands::LangLinks, &tuple, 0).unwrap();
    assert_eq!(rec.fields(), vec!["10", "de", "Hauptseite"]);
    assert_eq!(rec.table(), Commands::LangLinks);
    let rec = decode(Commands::Iwlinks, &tuple, 0).unwrap();
    assert_eq!(rec.fields(), vec!["10", "de", "Hauptseite"]);
    assert_eq!(rec.table(), Commands::Iwlinks);
}

#[test]
fn numbers_are_written_in_decimal() {
    let rec = Record::Category {
        id: u64::MAX,
        title: String::new(),
        pages: i64::MIN,
        subcats: i64::MAX,
        files: -10,
    };
    assert_eq!(
        rec.fields(),
        vec!["18446744073709551615", "", "-9223372036854775808", "9223372036854775807", "-10"]
    );
    let rec = Record::LanguageLink { from: 0, lang: "a".to_string(), title: "b".to_string() };
    assert_eq!(rec.fields(), vec!["0", "a", "b"]);
    let rec = Record::LanguageLink { from: 1000, lang: "a".to_string(), title: "b".to_string() };
    assert_eq!(rec.fields(), vec!["1000", "a", "b"]);
}

#[test]
fn headers_name_the_columns() {
    assert_eq!(Commands::LangLinks.header(), vec!["from", "lang", "title"]);
    assert_eq!(Commands::Iwlinks.header(), vec!["from", "prefix", "title"]);
    assert_eq!(Commands::Category.header(), vec!["id", "title", "pages", "subcats", "files"]);
    assert_eq!(Commands::CategoryLinks.header(), vec!["from", "to", "collation", "type"]);
    assert_eq!(Commands::Page.header(), vec!["id", "namespace", "title", "is_redirect", "lang"]);
    assert_eq!(Commands::Page.header_row(), b"id,namespace,title,is_redirect,lang\n".to_vec());
    assert_eq!(Commands::LangLinks.header_row(), b"from,lang,title\n".to_vec());
}

#[test]
fn fields_are_quoted_where_needed() {
    let rec = Record::LanguageLink {
        from: 1,
        lang: "en".to_string(),
        title: "Hello, \"world\"".to_string(),
    };
    assert_eq!(rec.line(), b"1,en,\"Hello, \"\"world\"\"\"\n".to_vec());
}

#[test]
fn a_written_line_reads_back_as_its_fields() {
    let records = vec![
        Record::LanguageLink { from: 1, lang: "en".to_string(), title: "a,b\"c\nd".to_string() },
        Record::InterwikiLink { from: 2, prefix: "w".to_string(), title: "It's".to_string() },
        Record::Category { id: 3, title: " spaced ".to_string(), pages: -1, subcats: 2, files: 0 },
        Record::CategoryLink {
            from: 4,
            to: "\"".to_string(),
            collation: "uca".to_string(),
            kind: PageType::File,
        },
        Record::Page {
            id: 5,
            namespace: 1,
            title: "T\r\n".to_string(),
            is_redirect: false,
            lang: Some("fr".to_string()),
        },
        Record::Page { id: 6, namespace: 0, title: "U".to_string(), is_redirect: true, lang: None },
    ];
    for rec in records {
        let line = rec.line();
        let mut reader = csv::ReaderBuilder::new().has_headers(false).from_reader(line.as_slice());
        let mut rows = Vec::new();
        for row in reader.records() {
            let row = row.unwrap();
            rows.push(row.iter().map(|f| f.to_string()).collect::<Vec<String>>());
        }
        assert_eq!(rows, vec![rec.fields()]);
    }
}
