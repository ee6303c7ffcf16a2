use secret_rotate::json::serialize;
use secret_rotate::matcher::{search_token, VaultIndex};
use secret_rotate::selector::{select, select_field, SkipReason};
use secret_rotate::session::{CredJsonIter, NoIssuers, Step};
use secret_rotate::templates::{
    Attribute, Cred, Creds, CredsIssuer, ItemField, ItemFieldSection, ItemSection, ItemType, Member,
    OnePasswordItem, OnePasswordListItem,
};
use secret_rotate::text::{chars_of, contains_chars};
use secret_rotate::updater::{apply, field_label, plan_update, position_of, UpdateAction};

fn summary(id: &str, title: &str) -> OnePasswordListItem {
    OnePasswordListItem { id: id.to_string(), title: title.to_string() }
}

fn field(id: &str, section: Option<&str>, item_type: ItemType) -> ItemField {
    ItemField {
        id: id.to_string(),
        section: match section {
            Some(s) => Member::Given(ItemFieldSection { id: s.to_string(), extra: vec![] }),
            None => Member::Absent,
        },
        item_type,
        label: Member::Absent,
        value: Member::Absent,
        reference: format!("op://v/i/{}", id),
        extra: vec![],
    }
}

fn item(fields: Option<Vec<ItemField>>) -> OnePasswordItem {
    OnePasswordItem {
        id: "1".to_string(),
        title: "Acme api key prod".to_string(),
        category: "API_CREDENTIAL".to_string(),
        sections: Member::Absent,
        fields: match fields {
            Some(fs) => Member::Given(fs),
            None => Member::Absent,
        },
        extra: vec![],
    }
}

fn cred(name: &str, value: &str) -> Cred {
    Cred { name: name.to_string(), value: value.to_string() }
}

fn batch() -> Creds {
    Creds {
        issuers: vec![CredsIssuer {
            issuer: "Acme".to_string(),
            credentials: vec![cred("API Key", "secretXYZ")],
        }],
    }
}

#[test]
fn contains_finds_substrings() {
    let hay = chars_of("acme api key prod");
    assert!(contains_chars(&hay, &chars_of("api key")));
    assert!(contains_chars(&hay, &chars_of("")));
    assert!(!contains_chars(&hay, &chars_of("key api")));
    assert!(!contains_chars(&chars_of("ab"), &chars_of("abc")));
}

#[test]
fn search_token_joins_with_space() {
    assert_eq!(search_token(&"acme".to_string(), &"api key".to_string()), "acme api key");
}

#[test]
fn index_lowercases_titles() {
    let index = VaultIndex::new(vec![summary("7", "Acme API Key")]);
    assert_eq!(index.items[0].title, "acme api key");
    assert_eq!(index.items[0].id, "7");
}

#[test]
fn resolve_takes_first_match() {
    let index = VaultIndex::new(vec![
        summary("1", "Other"),
        summary("2", "old ACME Api Key staging"),
        summary("3", "acme api key prod"),
    ]);
    let found = index.resolve("Acme", "API Key").unwrap();
    assert_eq!(found.id, "2");
    assert_eq!(found.title, "old acme api key staging");
    assert!(index.resolve("Acme", "Token").is_none());
    assert!(index.resolve("acme", "apikey").is_none());
}

#[test]
fn select_prefers_unsectioned_credential() {
    let fields = vec![
        field("password", None, ItemType::Concealed),
        field("other", Some("s1"), ItemType::Concealed),
        field("credential", None, ItemType::Concealed),
    ];
    assert_eq!(select_field(&fields), Some(2));
    assert_eq!(select(&item(Some(fields))).unwrap(), "credential");
}

#[test]
fn select_ignores_credential_in_section() {
    let fields = vec![
        field("credential", Some("s1"), ItemType::Concealed),
        field("notes", None, ItemType::String),
        field("pin", None, ItemType::Concealed),
    ];
    assert_eq!(select_field(&fields), Some(2));
}

#[test]
fn select_falls_back_to_first_concealed() {
    let fields = vec![
        field("username", None, ItemType::String),
        field("a", Some("s1"), ItemType::Concealed),
        field("b", Some("s2"), ItemType::Concealed),
    ];
    assert_eq!(select_field(&fields), Some(1));
    assert_eq!(select(&item(Some(fields))).unwrap(), "a");
}

#[test]
fn select_never_picks_plain_fields() {
    let fields = vec![
        field("credential", None, ItemType::String),
        field("x", Some("s"), ItemType::Concealed),
    ];
    assert_eq!(select(&item(Some(fields))).unwrap(), "x");
}

#[test]
fn select_without_concealed_fields() {
    let fields = vec![field("username", None, ItemType::String)];
    assert_eq!(select(&item(Some(fields))), Err(SkipReason::NoConcealedField));
}

#[test]
fn select_without_fields() {
    assert_eq!(select(&item(None)), Err(SkipReason::NoFields));
}

#[test]
fn apply_sets_first_field_with_id() {
    let fields = vec![
        field("a", None, ItemType::String),
        field("credential", None, ItemType::Concealed),
        field("credential", Some("s"), ItemType::Concealed),
    ];
    let updated = apply(item(Some(fields)), &"credential".to_string(), "new".to_string());
    let fs = match updated.fields {
        Member::Given(fs) => fs,
        _ => panic!("fields lost"),
    };
    assert_eq!(fs[0].value, Member::Absent);
    assert_eq!(fs[1].value, Member::Given("new".to_string()));
    assert_eq!(fs[2].value, Member::Absent);
}

#[test]
fn position_and_label() {
    let mut labelled = field("credential", None, ItemType::Concealed);
    labelled.label = Member::Given("API key".to_string());
    let fields = vec![field("a", None, ItemType::String), labelled];
    assert_eq!(position_of(&fields, &"credential".to_string()), Some(1));
    assert_eq!(position_of(&fields, &"zzz".to_string()), None);
    assert_eq!(field_label(&fields, &"credential".to_string()), "API key");
    assert_eq!(field_label(&fields, &"a".to_string()), "a");
}

#[test]
fn serialize_exact_text() {
    let mut f = field("credential", Some("sec"), ItemType::Concealed);
    f.value = Member::Given("v\"1".to_string());
    f.extra = vec![Attribute { key: "purpose".to_string(), json: "\"PASSWORD\"".to_string() }];
    let mut it = item(Some(vec![f, field("when", None, ItemType::MonthYear)]));
    it.extra = vec![Attribute { key: "vault".to_string(), json: "{\"id\":\"v\"}".to_string() }];
    let text = serialize(&it);
    assert_eq!(
        text,
        "{\"id\":\"1\",\"title\":\"Acme api key prod\",\"category\":\"API_CREDENTIAL\",\
\"fields\":[{\"id\":\"credential\",\"section\":{\"id\":\"sec\"},\"type\":\"CONCEALED\",\
\"value\":\"v\\\"1\",\"reference\":\"op://v/i/credential\",\"purpose\":\"PASSWORD\"},\
{\"id\":\"when\",\"type\":\"MONTH_YEAR\",\"reference\":\"op://v/i/when\"}],\
\"vault\":{\"id\":\"v\"}}"
    );
}

#[test]
fn serialize_writes_null_members() {
    let mut f = field("x", None, ItemType::Phone);
    f.section = Member::Null;
    f.label = Member::Null;
    f.value = Member::Null;
    let mut it = item(Some(vec![f]));
    it.sections = Member::Null;
    assert_eq!(
        serialize(&it),
        "{\"id\":\"1\",\"title\":\"Acme api key prod\",\"category\":\"API_CREDENTIAL\",\
\"sections\":null,\"fields\":[{\"id\":\"x\",\"section\":null,\"type\":\"PHONE\",\
\"label\":null,\"value\":null,\"reference\":\"op://v/i/x\"}]}"
    );
    it.fields = Member::Null;
    assert!(serialize(&it).ends_with(",\"sections\":null,\"fields\":null}"));
}

#[test]
fn serialize_sections_and_unknown_type() {
    let raw = "\"SSH_KEY\"".to_string();
    let mut it = item(Some(vec![field("x", None, ItemType::Unknown(raw))]));
    it.sections = Member::Given(vec![
        ItemSection { id: "a".to_string(), label: "A".to_string(), extra: vec![] },
        ItemSection { id: "b".to_string(), label: "B".to_string(), extra: vec![] },
    ]);
    let text = serialize(&it);
    assert!(text.contains(",\"sections\":[{\"id\":\"a\",\"label\":\"A\"},{\"id\":\"b\",\"label\":\"B\"}],"));
    assert!(text.contains("\"type\":\"SSH_KEY\""));
}

#[test]
fn apply_twice_serializes_identically() {
    let fields = vec![field("credential", None, ItemType::Concealed)];
    let id = "credential".to_string();
    let once = apply(item(Some(fields)), &id, "s3cret".to_string());
    let first = serialize(&once);
    let twice = apply(once, &id, "s3cret".to_string());
    assert_eq!(serialize(&twice), first);
}

#[test]
fn apply_keeps_passthrough_attributes() {
    let mut it = item(Some(vec![field("credential", None, ItemType::Concealed)]));
    it.extra = vec![
        Attribute { key: "tags".to_string(), json: "[\"a\",\"b\"]".to_string() },
        Attribute { key: "version".to_string(), json: "4".to_string() },
    ];
    let updated = apply(it, &"credential".to_string(), "n".to_string());
    let text = serialize(&updated);
    assert!(text.contains(",\"tags\":[\"a\",\"b\"]"));
    assert!(text.ends_with(",\"tags\":[\"a\",\"b\"],\"version\":4}"));
}

#[test]
fn simulate_plan_submits_nothing() {
    let fields = vec![field("credential", None, ItemType::Concealed)];
    let c = cred("API Key", "secretXYZ");
    let sim = plan_update(item(Some(fields)), &c, true);
    let fields = vec![field("credential", None, ItemType::Concealed)];
    let live = plan_update(item(Some(fields)), &c, false);
    match (sim, live) {
        (
            UpdateAction::Simulate { payload: p1, report: r1 },
            UpdateAction::Submit { id, payload: p2, report: r2 },
        ) => {
            assert_eq!(id, "1");
            assert_eq!(p1, p2);
            assert_eq!(r1, r2);
        }
        _ => panic!("unexpected plans"),
    }
}

#[test]
fn scenario_matched_credential_is_placed() {
    let mut walk = batch().iter_templates("Private", vec![summary("1", "Acme api key prod")]).unwrap();
    assert!(matches!(walk.next(), Step::Issuer(ref n) if n == "acme"));
    let (found, c) = match walk.next() {
        Step::Found(s, c) => (s, c),
        _ => panic!("credential not matched"),
    };
    assert_eq!(found.id, "1");
    let fetched = item(Some(vec![field("credential", None, ItemType::Concealed)]));
    assert_eq!(select(&fetched).unwrap(), "credential");
    match plan_update(fetched, &c, false) {
        UpdateAction::Submit { id, payload, report } => {
            assert_eq!(id, "1");
            assert!(payload.contains("\"value\":\"secretXYZ\""));
            assert_eq!(
                report,
                "placed credential \"API Key\" into field \"credential\" of vault item Acme api key prod (id: 1)"
            );
        }
        _ => panic!("no update planned"),
    }
    assert!(matches!(walk.next(), Step::Done));
}

#[test]
fn scenario_unmatched_credential_is_skipped() {
    let mut walk = batch().iter_templates("Private", vec![summary("1", "Acme api token")]).unwrap();
    assert!(matches!(walk.next(), Step::Issuer(_)));
    match walk.next() {
        Step::NotFound(w) => {
            assert_eq!(w, "warn: {issuer=acme,cred=api key} not found in vault Private, skipping")
        }
        _ => panic!("expected a warning"),
    }
    assert!(matches!(walk.next(), Step::Done));
    assert!(matches!(walk.next(), Step::Done));
}

#[test]
fn scenario_item_without_fields_is_skipped() {
    match plan_update(item(None), &cred("API Key", "secretXYZ"), false) {
        UpdateAction::Skip { reason, warning } => {
            assert_eq!(reason, SkipReason::NoFields);
            assert_eq!(warning, "warn: item Acme api key prod (id: 1) has no fields, skipping");
        }
        _ => panic!("expected a skip"),
    }
}

#[test]
fn item_without_concealed_field_is_skipped() {
    let fetched = item(Some(vec![field("user", None, ItemType::String)]));
    match plan_update(fetched, &cred("API Key", "x"), true) {
        UpdateAction::Skip { reason, warning } => {
            assert_eq!(reason, SkipReason::NoConcealedField);
            assert_eq!(warning, "unable to find credential field in item Acme api key prod (id: 1)");
        }
        _ => panic!("expected a skip"),
    }
}

#[test]
fn walk_visits_issuers_in_order() {
    let creds = Creds {
        issuers: vec![
            CredsIssuer { issuer: "Empty".to_string(), credentials: vec![] },
            CredsIssuer { issuer: "Beta".to_string(), credentials: vec![cred("Token", "t")] },
        ],
    };
    let mut walk: CredJsonIter =
        creds.iter_templates("V", vec![summary("9", "BETA TOKEN")]).unwrap();
    assert!(matches!(walk.next(), Step::Issuer(ref n) if n == "empty"));
    assert!(matches!(walk.next(), Step::Issuer(ref n) if n == "beta"));
    assert!(matches!(walk.next(), Step::Found(ref s, ref c) if s.id == "9" && c.value == "t"));
    assert!(matches!(walk.next(), Step::Done));
}

#[test]
fn batch_without_issuers_is_refused() {
    let r = Creds { issuers: vec![] }.iter_templates("V", vec![]);
    assert!(matches!(r, Err(NoIssuers)));
}

#[test]
fn item_display_text() {
    assert_eq!(item(None).to_string(), "Acme api key prod (id: 1)");
}

#[test]
fn field_type_words() {
    assert_eq!(ItemType::Concealed.field_type(), "password");
    assert_eq!(ItemType::String.field_type(), "text");
    assert_eq!(ItemType::MonthYear.field_type(), "monthYear");
    assert_eq!(ItemType::Menu.field_type(), "menu");
    assert_eq!(ItemType::file(), "file");
}

#[test]
fn apply_keeps_field_attributes() {
    let mut f = field("credential", None, ItemType::Concealed);
    f.extra = vec![Attribute { key: "entropy".to_string(), json: "75.5".to_string() }];
    let updated = apply(item(Some(vec![f])), &"credential".to_string(), "n".to_string());
    let text = serialize(&updated);
    assert!(text.contains("\"value\":\"n\",\"reference\":\"op://v/i/credential\",\"entropy\":75.5}"));
}

#[test]
fn serialize_escapes_control_characters() {
    let mut it = item(None);
    it.title = "a\\b\u{1}\u{1f}\tz\u{7f}".to_string();
    let text = serialize(&it);
    assert!(text.contains("\"title\":\"a\\\\b\\u0001\\u001f\\tz\u{7f}\""));
}

#[test]
fn item_type_from_json_text() {
    assert_eq!(ItemType::from_json("\"CONCEALED\""), ItemType::Concealed);
    assert_eq!(ItemType::from_json("\"MONTH_YEAR\""), ItemType::MonthYear);
    assert_eq!(ItemType::from_json("\"MENU\""), ItemType::Menu);
    assert_eq!(ItemType::from_json("\"SSH_KEY\""), ItemType::Unknown("\"SSH_KEY\"".to_string()));
    assert_eq!(ItemType::from_json("null"), ItemType::Unknown("null".to_string()));
}

#[test]
fn null_fields_are_skipped() {
    let mut it = item(None);
    it.fields = Member::Null;
    assert_eq!(select(&it), Err(SkipReason::NoFields));
}
