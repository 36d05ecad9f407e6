use sql_extractor::command::{Commands, Opts};
use sql_extractor::extract::{
    category, category_links, end_error, close, iwlinks, lang_links, page, render, report_due,
    ExtractError,
};
use sql_extractor::locate::{announces_tuple, find_marker, starts_at};
use sql_extractor::record::DecodeError;
use sql_extractor::scan::{Scan, ScanEnd};
use sql_extractor::value::Value;

fn lines(ls: &[&str]) -> Vec<Vec<u8>> {
    ls.iter().map(|l| l.as_bytes().to_vec()).collect()
}

fn text(s: &str) -> Value {
    Value::Text(s.to_string())
}

#[test]
fn langlinks_dump_gives_one_line_per_tuple_in_order() {
    let sql = b"-- dump\nDROP TABLE IF EXISTS `langlinks`;\nINSERT INTO `langlinks` VALUES (1,'en','One'),(2,'fr','Deux'),(3,'de','Drei');\nINSERT INTO `langlinks` VALUES (4,'es','Cuatro');\n/*!40000 ALTER TABLE `langlinks` ENABLE KEYS */;\n";
    assert_eq!(
        lang_links(sql).unwrap(),
        lines(&["from,lang,title\n", "1,en,One\n", "2,fr,Deux\n", "3,de,Drei\n", "4,es,Cuatro\n"])
    );
}

#[test]
fn escaped_quote_and_backslash_decode_to_the_character() {
    let sql = b"INSERT INTO `langlinks` VALUES (1,'en','It\\'s'),(2,'en','a\\\\b');\nUNLOCK TABLES;\n";
    assert_eq!(
        lang_links(sql).unwrap(),
        lines(&["from,lang,title\n", "1,en,It's\n", "2,en,a\\b\n"])
    );
}

#[test]
fn iwlinks_dump() {
    let sql = b"INSERT INTO `iwlinks` VALUES (11,'wikt','word'),(12,'commons','File:A, b.png');\nUNLOCK TABLES;\n";
    assert_eq!(
        iwlinks(sql).unwrap(),
        lines(&["from,prefix,title\n", "11,wikt,word\n", "12,commons,\"File:A, b.png\"\n"])
    );
}

#[test]
fn category_dump() {
    let sql = b"INSERT INTO `category` VALUES (1,'Cats',3,1,0),(2,'Dogs',-1,0,7);\nUNLOCK TABLES;\n";
    assert_eq!(
        category(sql).unwrap(),
        lines(&["id,title,pages,subcats,files\n", "1,Cats,3,1,0\n", "2,Dogs,-1,0,7\n"])
    );
}

#[test]
fn page_dump() {
    let sql = b"INSERT INTO `page` VALUES (7,0,'Main_Page',1,0,0.5,'20200102030405',NULL,9,100,'wikitext',NULL),(8,14,'Cats',0,0,0.25,'20200102030405','20200102030406',10,20,NULL,'en');\nUNLOCK TABLES;\n";
    assert_eq!(
        page(sql).unwrap(),
        lines(&["id,namespace,title,is_redirect,lang\n", "7,0,Main_Page,true,\n", "8,14,Cats,false,en\n"])
    );
}

#[test]
fn page_with_negative_namespace_is_a_decode_error() {
    let sql = b"INSERT INTO `page` VALUES (7,0,'A',0,0,0.5,'20200102030405',NULL,9,100,NULL,NULL),(8,-1,'B',0,0,0.25,'20200102030405',NULL,10,20,NULL,NULL);\nUNLOCK TABLES;\n";
    assert_eq!(
        page(sql).unwrap_err(),
        ExtractError::Decode(DecodeError::Field { index: 1, position: 1 })
    );
}

#[test]
fn category_links_from_what_was_read() {
    let sql = b"INSERT INTO `categorylinks` VALUES (5,'Animals','','2020-01-02 03:04:05','','uca-default','subcat');\nUNLOCK TABLES;\n";
    let found = Scan {
        tuples: vec![vec![Value::Int(5), text("Animals"), text("uca-default"), text("subcat")]],
        end: ScanEnd::Stopped { rest: 16 },
    };
    assert_eq!(
        category_links(sql, &found).unwrap(),
        lines(&["from,to,collation,type\n", "5,Animals,uca-default,subcat\n"])
    );
    let short = Scan {
        tuples: vec![vec![Value::Int(5), text("Animals")]],
        end: ScanEnd::Stopped { rest: 16 },
    };
    assert_eq!(
        category_links(sql, &short).unwrap_err(),
        ExtractError::Decode(DecodeError::Arity { index: 0, expected: 4, actual: 2 })
    );
    assert_eq!(category_links(b"", &short).unwrap(), lines(&["from,to,collation,type\n"]));
}

#[test]
fn statement_without_tuples_gives_the_header_alone() {
    assert_eq!(lang_links(b"INSERT INTO t VALUES;").unwrap(), lines(&["from,lang,title\n"]));
    assert_eq!(
        lang_links(b"INSERT INTO `langlinks` VALUES;\n").unwrap(),
        lines(&["from,lang,title\n"])
    );
    assert_eq!(
        category(b"INSERT INTO `category` VALUES ;\nUNLOCK TABLES;\n").unwrap(),
        lines(&["id,title,pages,subcats,files\n"])
    );
}

#[test]
fn dump_without_statement_gives_the_header_alone() {
    assert_eq!(lang_links(b"").unwrap(), lines(&["from,lang,title\n"]));
    assert_eq!(
        page(b"CREATE TABLE `page` (x int);\n").unwrap(),
        lines(&["id,namespace,title,is_redirect,lang\n"])
    );
    assert_eq!(iwlinks(b",").unwrap(), lines(&["from,prefix,title\n"]));
}

#[test]
fn dump_that_ends_after_its_last_tuple() {
    assert_eq!(
        lang_links(b"INSERT INTO `langlinks` VALUES (1,'en','One');\n").unwrap(),
        lines(&["from,lang,title\n", "1,en,One\n"])
    );
}

#[test]
fn tuple_with_too_few_values_is_an_error() {
    let sql = b"INSERT INTO `langlinks` VALUES (1,'en','One'),(2,'fr');\nUNLOCK TABLES;\n";
    assert_eq!(lang_links(sql).unwrap_err(), ExtractError::Malformed { index: 1 });
}

#[test]
fn tuple_with_too_many_values_is_an_error() {
    let sql = b"INSERT INTO `langlinks` VALUES (1,'en','One'),(2,'fr','Deux','x');\nUNLOCK TABLES;\n";
    assert_eq!(lang_links(sql).unwrap_err(), ExtractError::Unread { index: 1, offset: 45 });
    let sql = b"-- \nINSERT INTO `langlinks` VALUES (1,'en','One','x');\nUNLOCK TABLES;\n";
    assert_eq!(lang_links(sql).unwrap_err(), ExtractError::Unread { index: 0, offset: 4 });
    let sql = b"INSERT INTO `langlinks` VALUES (1,'en','One');\n  INSERT INTO `langlinks` VALUES (2,'fr','Deux','x');\n";
    assert_eq!(lang_links(sql).unwrap_err(), ExtractError::Unread { index: 1, offset: 45 });
}

#[test]
fn value_of_the_wrong_kind_is_an_error() {
    let sql = b"INSERT INTO `category` VALUES (1,'Cats',3,1,0),(2,'Dogs',1,0,7),('x','Dogs',1,0,7);\nUNLOCK TABLES;\n";
    assert_eq!(category(sql).unwrap_err(), ExtractError::Malformed { index: 2 });
}

#[test]
fn render_stops_at_the_first_tuple_that_is_no_row() {
    let scan = Scan {
        tuples: vec![
            vec![Value::Int(1), text("en"), text("One")],
            vec![Value::Int(2), Value::Int(3), text("Two")],
            vec![Value::Int(3)],
        ],
        end: ScanEnd::Failed,
    };
    assert_eq!(
        render(Commands::LangLinks, b"", &scan).unwrap_err(),
        ExtractError::Decode(DecodeError::Field { index: 1, position: 1 })
    );
}

#[test]
fn render_reports_how_reading_ended() {
    let tuples = vec![vec![Value::Int(1), text("en"), text("One")]];
    let sql = b"0123456789,(2)";
    let failed = Scan { tuples: tuples.clone(), end: ScanEnd::Failed };
    assert_eq!(
        render(Commands::LangLinks, sql, &failed).unwrap_err(),
        ExtractError::Malformed { index: 1 }
    );
    let comma = Scan { tuples: tuples.clone(), end: ScanEnd::Stopped { rest: 4 } };
    assert_eq!(
        render(Commands::LangLinks, sql, &comma).unwrap_err(),
        ExtractError::Unread { index: 1, offset: 10 }
    );
    let beyond = Scan { tuples: tuples.clone(), end: ScanEnd::Stopped { rest: 15 } };
    assert_eq!(
        render(Commands::LangLinks, sql, &beyond).unwrap_err(),
        ExtractError::Malformed { index: 1 }
    );
    let cut = Scan { tuples: tuples.clone(), end: ScanEnd::Incomplete };
    assert_eq!(
        render(Commands::LangLinks, sql, &cut).unwrap_err(),
        ExtractError::Truncated { index: 1 }
    );
    for end in [ScanEnd::Stopped { rest: 0 }, ScanEnd::Stopped { rest: 3 }] {
        let scan = Scan { tuples: tuples.clone(), end };
        assert_eq!(
            render(Commands::LangLinks, sql, &scan).unwrap(),
            lines(&["from,lang,title\n", "1,en,One\n"])
        );
    }
}

#[test]
fn render_of_nothing_is_the_header() {
    let scan = Scan { tuples: vec![], end: ScanEnd::Stopped { rest: 0 } };
    assert_eq!(
        render(Commands::Category, b"", &scan).unwrap(),
        lines(&["id,title,pages,subcats,files\n"])
    );
}

#[test]
fn marker_is_found_at_its_first_place() {
    assert_eq!(find_marker(b""), None);
    assert_eq!(find_marker(b"INSERT INT"), None);
    assert_eq!(find_marker(b"insert into"), None);
    assert_eq!(find_marker(b"INSERT INTO"), Some(0));
    assert_eq!(find_marker(b"xx INSERT INTO `a` INSERT INTO `b`"), Some(3));
    assert_eq!(find_marker(b"INSERT INSERT INTO"), Some(7));
}

#[test]
fn patterns_match_inside_the_dump_only() {
    assert!(starts_at(b"abc", 1, b"bc"));
    assert!(starts_at(b"abc", 3, b""));
    assert!(!starts_at(b"abc", 2, b"bc"));
    assert!(!starts_at(b"abc", 4, b""));
    assert!(!starts_at(b"abc", usize::MAX, b"a"));
    assert!(!starts_at(b"abc", 0, b"abcd"));
}

#[test]
fn what_announces_a_tuple() {
    assert!(announces_tuple(b",(1)", 0));
    assert!(announces_tuple(b"INSERT INTO `t` VALUES (1)", 0));
    assert!(announces_tuple(b" \n;\r\n\tINSERT INTO `page_props` VALUES (", 0));
    assert!(announces_tuple(b"x;INSERT INTO `` VALUES (", 1));
    assert!(!announces_tuple(b";;INSERT INTO `t` VALUES (", 0));
    assert!(!announces_tuple(b"INSERT INTO `t` VALUES;", 0));
    assert!(!announces_tuple(b"INSERT INTO `T` VALUES (", 0));
    assert!(!announces_tuple(b"INSERT INTO t VALUES (", 0));
    assert!(!announces_tuple(b";\n/*!40000 ALTER TABLE */", 0));
    assert!(!announces_tuple(b"", 0));
    assert!(!announces_tuple(b",", 1));
    assert!(!announces_tuple(b",", 7));
}

#[test]
fn how_reading_may_end() {
    assert_eq!(end_error(b"", ScanEnd::Failed, 4), Some(ExtractError::Malformed { index: 4 }));
    assert_eq!(end_error(b"", ScanEnd::Incomplete, 5), Some(ExtractError::Truncated { index: 5 }));
    assert_eq!(end_error(b"", ScanEnd::Stopped { rest: 0 }, 0), None);
    assert_eq!(
        end_error(b"", ScanEnd::Stopped { rest: 1 }, 0),
        Some(ExtractError::Malformed { index: 0 })
    );
    assert_eq!(
        end_error(b"ab,", ScanEnd::Stopped { rest: 1 }, 2),
        Some(ExtractError::Unread { index: 2, offset: 2 })
    );
    assert_eq!(end_error(b"ab,", ScanEnd::Stopped { rest: 2 }, 2), None);
}

#[test]
fn a_closed_dump_ends_in_two_semicolons() {
    assert_eq!(close(b""), b";;".to_vec());
    assert_eq!(close(b"ab\n"), b"ab\n;;".to_vec());
}

#[test]
fn dump_cut_inside_a_tuple_is_an_error() {
    let sql = b"INSERT INTO `langlinks` VALUES (1,'en','One'),(2,'fr','De";
    assert_eq!(lang_links(sql).unwrap_err(), ExtractError::Truncated { index: 1 });
    let sql = b"INSERT INTO `langlinks` VALUES (1,'en','One'),(2,'fr'";
    assert_eq!(lang_links(sql).unwrap_err(), ExtractError::Malformed { index: 1 });
    let sql = b"INSERT INTO `langlinks` VALUES (1,'en','One'),(2";
    assert_eq!(lang_links(sql).unwrap_err(), ExtractError::Malformed { index: 1 });
    let sql = b"INSERT INTO `category` VALUES (1,'Cats',3,1,";
    assert_eq!(category(sql).unwrap_err(), ExtractError::Malformed { index: 0 });
}

#[test]
fn dump_cut_between_tuples() {
    let sql = b"INSERT INTO `langlinks` VALUES (1,'en','One')";
    assert_eq!(lang_links(sql).unwrap(), lines(&["from,lang,title\n", "1,en,One\n"]));
    let sql = b"INSERT INTO `langlinks` VALUES (1,'en','One');\n\n  ";
    assert_eq!(lang_links(sql).unwrap(), lines(&["from,lang,title\n", "1,en,One\n"]));
    let sql = b"INSERT INTO `langlinks` VALUES (1,'en','One');\nINSERT INTO `langl";
    assert_eq!(lang_links(sql).unwrap(), lines(&["from,lang,title\n", "1,en,One\n"]));
}

#[test]
fn progress_is_due_every_millionth_row() {
    assert!(!report_due(0));
    assert!(!report_due(1));
    assert!(!report_due(999_999));
    assert!(report_due(1_000_000));
    assert!(!report_due(1_000_001));
    assert!(report_due(3_000_000));
}

#[test]
fn options_hold_what_a_run_is_given() {
    let opts = Opts {
        input_file: "dump.sql".to_string(),
        output_file: None,
        commands: Some(Commands::Page),
    };
    assert_eq!(opts.input_file, "dump.sql");
    assert_eq!(opts.output_file, None);
    assert_eq!(opts.commands, Some(Commands::Page));
}
