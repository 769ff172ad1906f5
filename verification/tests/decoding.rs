use moe::types::{Limit, Me, Quota, SearchResponse, UserLimit, UserQuota};
use moe::Doc;

fn doc_text(changed: &str, value: &str) -> String {
    let members = [
        ("from", "1.5"),
        ("to", "2"),
        ("at", "1.75"),
        ("similarity", "0.5"),
        ("anilist_id", "20"),
        ("mal_id", "30"),
        ("is_adult", "true"),
        ("title_native", "\"n\""),
        ("title_chinese", "\"c\""),
        ("title_english", "\"e\""),
        ("title_romaji", "\"r\""),
        ("synonyms", "[\"a\", \"b\"]"),
        ("synonyms_chinese", "[\"x\"]"),
        ("filename", "\"f.mp4\""),
        ("tokenthumb", "\"t\""),
    ];
    let mut parts: Vec<String> = Vec::new();
    for (name, plain) in members {
        if name == changed {
            if value != "" {
                parts.push(format!("\"{}\": {}", name, value));
            }
        } else {
            parts.push(format!("\"{}\": {}", name, plain));
        }
    }
    format!("{{{}}}", parts.join(", "))
}

fn doc_with(changed: &str, value: &str) -> Option<Doc> {
    let document: serde_json::Value = serde_json::from_str(&doc_text(changed, value)).unwrap();
    Doc::from_json(&document)
}

fn account_text(user_id: &str) -> String {
    format!(
        r#"{{{}"email":"e","limit":1,"limit_ttl":2,"quota":3,"quota_ttl":4,"user_limit":5,"user_limit_ttl":6,"user_quota":7,"user_quota_ttl":8}}"#,
        user_id
    )
}

#[test]
fn doc_reads_every_member() {
    let doc = doc_with("", "").unwrap();
    assert_eq!(1.5, f64::from_bits(doc.from.bits));
    assert_eq!(2.0, f64::from_bits(doc.to.bits));
    assert_eq!(1.75, f64::from_bits(doc.at.bits));
    assert_eq!(0.5, f64::from_bits(doc.similarity.bits));
    assert_eq!(20, doc.anilist_id);
    assert_eq!(Some(30), doc.mal_id);
    assert!(doc.is_adult);
    assert_eq!(Some("n".to_string()), doc.title_native);
    assert_eq!(Some("c".to_string()), doc.title_chinese);
    assert_eq!(Some("e".to_string()), doc.title_english);
    assert_eq!("r", doc.title_romaji);
    assert_eq!(vec!["a".to_string(), "b".to_string()], doc.synonyms);
    assert_eq!(vec!["x".to_string()], doc.synonyms_chinese);
    assert_eq!("f.mp4", doc.filename);
    assert_eq!("t", doc.tokenthumb);
}

#[test]
fn optional_members_may_be_null() {
    let doc = doc_with("mal_id", "null").unwrap();
    assert_eq!(None, doc.mal_id);
    assert_eq!(None, doc_with("title_native", "null").unwrap().title_native);
    assert_eq!(None, doc_with("title_chinese", "null").unwrap().title_chinese);
    assert_eq!(None, doc_with("title_english", "null").unwrap().title_english);
}

#[test]
fn optional_members_may_be_missing() {
    assert_eq!(None, doc_with("mal_id", "").unwrap().mal_id);
    assert_eq!(None, doc_with("title_native", "").unwrap().title_native);
    assert_eq!(None, doc_with("title_chinese", "").unwrap().title_chinese);
    assert_eq!(None, doc_with("title_english", "").unwrap().title_english);
}

#[test]
fn absent_is_not_zero_or_empty() {
    assert_eq!(Some(0), doc_with("mal_id", "0").unwrap().mal_id);
    assert_eq!(Some(String::new()), doc_with("title_native", "\"\"").unwrap().title_native);
}

#[test]
fn optional_members_of_another_kind_do_not_read() {
    assert_eq!(None, doc_with("mal_id", "\"30\""));
    assert_eq!(None, doc_with("mal_id", "-1"));
    assert_eq!(None, doc_with("mal_id", "1.5"));
    assert_eq!(None, doc_with("mal_id", "4294967296"));
    assert_eq!(None, doc_with("title_english", "5"));
    assert_eq!(None, doc_with("title_english", "[]"));
}

#[test]
fn required_members_must_be_there() {
    for name in [
        "from", "to", "at", "similarity", "anilist_id", "is_adult", "title_romaji", "synonyms",
        "synonyms_chinese", "filename", "tokenthumb",
    ] {
        assert_eq!(None, doc_with(name, ""), "{} is missing", name);
        assert_eq!(None, doc_with(name, "null"), "{} is null", name);
    }
}

#[test]
fn numbers_with_a_fraction_take_any_number() {
    assert_eq!(12.0, f64::from_bits(doc_with("from", "12").unwrap().from.bits));
    assert_eq!(-3.0, f64::from_bits(doc_with("from", "-3").unwrap().from.bits));
    assert_eq!(1e3, f64::from_bits(doc_with("similarity", "1e3").unwrap().similarity.bits));
    assert_eq!(None, doc_with("from", "\"1.5\""));
    assert_eq!(None, doc_with("at", "true"));
}

#[test]
fn identifiers_are_unsigned_and_fit_32_bits() {
    assert_eq!(0, doc_with("anilist_id", "0").unwrap().anilist_id);
    assert_eq!(4294967295, doc_with("anilist_id", "4294967295").unwrap().anilist_id);
    assert_eq!(None, doc_with("anilist_id", "4294967296"));
    assert_eq!(None, doc_with("anilist_id", "-1"));
    assert_eq!(None, doc_with("anilist_id", "2.0"));
    assert_eq!(None, doc_with("anilist_id", "\"2\""));
}

#[test]
fn flags_are_booleans() {
    assert!(!doc_with("is_adult", "false").unwrap().is_adult);
    assert_eq!(None, doc_with("is_adult", "0"));
    assert_eq!(None, doc_with("is_adult", "\"true\""));
}

#[test]
fn synonyms_are_arrays_of_strings() {
    assert!(doc_with("synonyms", "[]").unwrap().synonyms.is_empty());
    assert_eq!(None, doc_with("synonyms", "\"a\""));
    assert_eq!(None, doc_with("synonyms", "[\"a\", 1]"));
    assert_eq!(None, doc_with("synonyms_chinese", "[null]"));
    assert_eq!(None, doc_with("synonyms_chinese", "{}"));
}

#[test]
fn a_doc_is_an_object() {
    for text in ["null", "[]", "1", "\"doc\"", "true"] {
        let document: serde_json::Value = serde_json::from_str(text).unwrap();
        assert_eq!(None, Doc::from_json(&document));
    }
}

#[test]
fn shared_parts_are_read_from_sibling_members() {
    let document: serde_json::Value = serde_json::from_str(&account_text("")).unwrap();
    assert_eq!(Some(Limit { limit: 1, limit_ttl: 2 }), Limit::from_json(&document));
    assert_eq!(Some(Quota { quota: 3, quota_ttl: 4 }), Quota::from_json(&document));
    assert_eq!(
        Some(UserLimit { user_limit: 5, user_limit_ttl: 6 }),
        UserLimit::from_json(&document)
    );
    assert_eq!(
        Some(UserQuota { user_quota: 7, user_quota_ttl: 8 }),
        UserQuota::from_json(&document)
    );
}

#[test]
fn nested_parts_do_not_read() {
    let text = r#"{"user_id":1,"email":"e","limit":{"limit":1,"limit_ttl":2},"quota":{"quota":3,"quota_ttl":4},"user_limit":5,"user_limit_ttl":6,"user_quota":7,"user_quota_ttl":8}"#;
    assert_eq!(None, Me::decode(text));
}

#[test]
fn shared_parts_need_both_members() {
    let document: serde_json::Value = serde_json::from_str(r#"{"limit": 1, "quota_ttl": 2}"#).unwrap();
    assert_eq!(None, Limit::from_json(&document));
    assert_eq!(None, Quota::from_json(&document));
    assert_eq!(None, UserLimit::from_json(&document));
    assert_eq!(None, UserQuota::from_json(&document));
}

#[test]
fn user_id_null_is_absent() {
    assert_eq!(None, Me::decode(&account_text(r#""user_id":null,"#)).unwrap().user_id);
}

#[test]
fn user_id_missing_is_absent() {
    assert_eq!(None, Me::decode(&account_text("")).unwrap().user_id);
}

#[test]
fn user_id_is_read_where_it_is_there() {
    assert_eq!(Some(0), Me::decode(&account_text(r#""user_id":0,"#)).unwrap().user_id);
    assert_eq!(Some(1001), Me::decode(&account_text(r#""user_id":1001,"#)).unwrap().user_id);
    assert_eq!(None, Me::decode(&account_text(r#""user_id":"1001","#)));
}

#[test]
fn me_reads_from_a_parsed_document() {
    let document: serde_json::Value = serde_json::from_str(&account_text(r#""user_id":9,"#)).unwrap();
    let me = Me::from_json(&document).unwrap();
    assert_eq!(Some(9), me.user_id);
    assert_eq!("e", me.email);
    assert_eq!(Limit { limit: 1, limit_ttl: 2 }, me.limit);
    assert_eq!(Quota { quota: 3, quota_ttl: 4 }, me.quota);
    assert_eq!(UserLimit { user_limit: 5, user_limit_ttl: 6 }, me.user_limit);
    assert_eq!(UserQuota { user_quota: 7, user_quota_ttl: 8 }, me.user_quota);
}

#[test]
fn members_that_are_not_known_are_passed_over() {
    let text = r#"{"user_id":null,"email":"e","limit":1,"limit_ttl":2,"quota":3,"quota_ttl":4,"user_limit":5,"user_limit_ttl":6,"user_quota":7,"user_quota_ttl":8,"plan":"free","extra":[1,{"a":null}]}"#;
    assert_eq!("e", Me::decode(text).unwrap().email);
}

#[test]
fn search_times_take_64_bits() {
    let text = r#"{"RawDocsCount":4294967295,"RawDocsSearchTime":18446744073709551615,"ReRankSearchTime":4294967296,"CacheHit":false,"trial":0,"limit":1,"limit_ttl":2,"quota":3,"quota_ttl":4,"docs":[]}"#;
    let answer = SearchResponse::decode(text).unwrap();
    assert_eq!(4294967295, answer.raw_docs_count);
    assert_eq!(18446744073709551615, answer.raw_docs_search_time);
    assert_eq!(4294967296, answer.re_rank_search_time);
    let too_large = text.replace("18446744073709551615", "18446744073709551616");
    assert_eq!(None, SearchResponse::decode(&too_large));
    let count_too_large = text.replace(r#""RawDocsCount":4294967295"#, r#""RawDocsCount":4294967296"#);
    assert_eq!(None, SearchResponse::decode(&count_too_large));
}

#[test]
fn docs_keep_their_order() {
    let text = format!(
        r#"{{"RawDocsCount":1,"RawDocsSearchTime":2,"ReRankSearchTime":3,"CacheHit":true,"trial":4,"limit":5,"limit_ttl":6,"quota":7,"quota_ttl":8,"docs":[{},{},{}]}}"#,
        doc_text("title_romaji", "\"first\""),
        doc_text("title_romaji", "\"second\""),
        doc_text("title_romaji", "\"third\"")
    );
    let answer = SearchResponse::decode(&text).unwrap();
    let titles: Vec<&str> = answer.docs.iter().map(|doc| doc.title_romaji.as_str()).collect();
    assert_eq!(vec!["first", "second", "third"], titles);
    let document: serde_json::Value = serde_json::from_str(&text).unwrap();
    assert_eq!(Some(answer), SearchResponse::from_json(&document));
}

#[test]
fn one_bad_doc_fails_the_answer() {
    let text = format!(
        r#"{{"RawDocsCount":1,"RawDocsSearchTime":2,"ReRankSearchTime":3,"CacheHit":true,"trial":4,"limit":5,"limit_ttl":6,"quota":7,"quota_ttl":8,"docs":[{},{}]}}"#,
        doc_text("", ""),
        doc_text("filename", "")
    );
    assert_eq!(None, SearchResponse::decode(&text));
}

#[test]
fn docs_must_be_an_array() {
    let text = r#"{"RawDocsCount":1,"RawDocsSearchTime":2,"ReRankSearchTime":3,"CacheHit":true,"trial":4,"limit":5,"limit_ttl":6,"quota":7,"quota_ttl":8,"docs":null}"#;
    assert_eq!(None, SearchResponse::decode(text));
    assert_eq!(None, SearchResponse::decode(&text.replace(r#","docs":null"#, "")));
    assert_eq!(None, SearchResponse::decode(&text.replace("null", "{}")));
}

#[test]
fn text_that_is_no_json_does_not_decode() {
    for text in ["", " ", "{", "}", "{\"email\"}", "nul", "{'a': 1}", "{\"a\": 1,}"] {
        assert_eq!(None, Me::decode(text));
        assert_eq!(None, SearchResponse::decode(text));
    }
}
