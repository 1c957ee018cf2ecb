use short_link::domain::account::entity::link::{Link as AccountLink, LinkId as AccountLinkId};
use short_link::domain::account::infra::persistence::{AccountPersistenceRepo, LinkDto as AccountLinkDto};
use short_link::domain::auth::entity::user::User;
use short_link::domain::link_manager::entity::link::{Link, LinkId, LINK_ID_LENGTH};
use short_link::domain::link_manager::infra::persistence::{LinkDto, LinkManagerPersistenceRepo};
use short_link::domain::user_manager::entity::user_no_password::UserNoPassword;
use short_link::time::Timestamp;

fn url_safe(c: char) -> bool {
    c == '_' || c == '-' || c.is_ascii_digit() || c.is_ascii_lowercase() || c.is_ascii_uppercase()
}

#[test]
fn generated_link_ids_have_four_url_safe_symbols() {
    for _ in 0..50 {
        let id = LinkId::generate();
        assert_eq!(id.value.chars().count(), LINK_ID_LENGTH);
        assert_eq!(LINK_ID_LENGTH, 4);
        assert!(id.value.chars().all(url_safe));
        let account_id = AccountLinkId::generate();
        assert_eq!(account_id.value.chars().count(), 4);
        assert!(account_id.value.chars().all(url_safe));
    }
}

#[test]
fn link_id_text_round_trip() {
    let id = LinkId::from_string("SVa-".to_string());
    assert_eq!(id.value, "SVa-");
    assert_eq!(id.to_string(), "SVa-");
    assert_eq!(id.clone().value, "SVa-");
    assert_eq!(AccountLinkId::default().value, "");
}

#[test]
fn new_link_is_unviewed() {
    let link = Link::new(LinkId::from_string("abcd".to_string()), 7, "https://example.com".to_string(), "home".to_string());
    assert_eq!(link.id.value, "abcd");
    assert_eq!(link.user_id, 7);
    assert_eq!(link.redirect_url, "https://example.com");
    assert_eq!(link.label, "home");
    assert_eq!(link.views, 0);
    assert!(link.last_view.is_none());
}

#[test]
fn link_from_parts_keeps_every_part() {
    let at = Timestamp { secs: 1_700_000_000, nanos: 5 };
    let seen = Timestamp { secs: 1_700_000_100, nanos: 0 };
    let link = Link::from_parts(LinkId::from_string("q1".to_string()), -3, "u".to_string(), "l".to_string(), 12, at, Some(seen));
    assert_eq!(link.id.value, "q1");
    assert_eq!(link.user_id, -3);
    assert_eq!(link.views, 12);
    assert_eq!(link.created_at, at);
    assert_eq!(link.last_view, Some(seen));
}

#[test]
fn link_row_round_trip() {
    let at = Timestamp { secs: 100, nanos: 200 };
    let link = Link::from_parts(LinkId::from_string("zZ_9".to_string()), 4, "https://a.b".to_string(), "lab".to_string(), 99, at, None);
    let row = LinkDto::from(link.clone());
    assert_eq!(row.id, "zZ_9");
    assert_eq!(row.user_id, 4);
    assert_eq!(row.redirect_url, "https://a.b");
    assert_eq!(row.label, "lab");
    assert_eq!(row.views, 99);
    assert_eq!(row.created_at, at);
    assert_eq!(row.last_view, None);
    let back = Link::from(row);
    assert_eq!(back.id.value, link.id.value);
    assert_eq!(back.user_id, link.user_id);
    assert_eq!(back.redirect_url, link.redirect_url);
    assert_eq!(back.label, link.label);
    assert_eq!(back.views, link.views);
    assert_eq!(back.created_at, link.created_at);
    assert_eq!(back.last_view, link.last_view);
}

#[test]
fn store_gives_fresh_ids() {
    let repo = LinkManagerPersistenceRepo::new(());
    let id = repo.next_link_id().unwrap();
    assert_eq!(id.value.chars().count(), 4);
    assert!(id.value.chars().all(url_safe));
}

#[test]
fn new_user_has_no_id_yet() {
    let user = User::new("Ann".to_string(), "ann@x.org".to_string(), "hash".to_string());
    assert_eq!(user.id, 0);
    assert_eq!(user.name, "Ann");
    assert_eq!(user.email, "ann@x.org");
    assert_eq!(user.password, "hash");
    let copy = user.clone();
    assert_eq!(copy.created_at, user.created_at);
    assert_eq!(copy.updated_at, user.updated_at);
}

#[test]
fn user_without_password() {
    let u = UserNoPassword::new(5, "Bo".to_string(), "bo@x.org".to_string());
    assert_eq!(u.id, 5);
    assert_eq!(u.name, "Bo");
    assert_eq!(u.email, "bo@x.org");
}

#[test]
fn account_link_counts_views() {
    let mut link = AccountLink::new(AccountLinkId::default(), 3, "target".to_string());
    assert_eq!(link.views, 0);
    assert!(link.last_view.is_none());
    link.increment_views();
    link.increment_views();
    assert_eq!(link.views, 2);
    assert!(link.last_view.is_some());
    assert_eq!(link.user_id, 3);
    assert_eq!(link.value, "target");
}

#[test]
fn account_row_writes_numbers_as_text() {
    let mut link = AccountLink::new(AccountLinkId { value: "k".to_string() }, -12, "v".to_string());
    for _ in 0..305 {
        link.increment_views();
    }
    let row = AccountLinkDto::from(link);
    assert_eq!(row.id, "k");
    assert_eq!(row.user_id, "-12");
    assert_eq!(row.value, "v");
    assert_eq!(row.views, "305");
    assert!(row.last_view.is_some());
}

#[test]
fn account_store_echoes_saves_and_gives_fresh_ids() {
    let repo = AccountPersistenceRepo::new(7u8);
    assert_eq!(*repo.trx_factory(), 7);
    let link = AccountLink::new(AccountLinkId { value: "e1".to_string() }, 2, "val".to_string());
    let saved = repo.save_link(link);
    assert_eq!(saved.id.value, "e1");
    assert_eq!(saved.user_id, 2);
    assert_eq!(saved.value, "val");
    let id = repo.next_link_id();
    assert_eq!(id.value.chars().count(), 4);
    assert!(id.value.chars().all(url_safe));
}

#[test]
fn link_ids_compare_by_text() {
    assert!(LinkId::from_string("ab".to_string()) == LinkId::from_string("ab".to_string()));
    assert!(LinkId::from_string("ab".to_string()) != LinkId::from_string("aB".to_string()));
    assert!(AccountLinkId::default() == AccountLinkId { value: String::new() });
}

#[test]
fn clone_of_public_user_details() {
    let u = UserNoPassword::new(1, "A".to_string(), "a@b".to_string());
    let c = u.clone();
    assert_eq!((c.id, c.name.as_str(), c.email.as_str()), (1, "A", "a@b"));
}

#[test]
fn new_entities_take_clock_readings() {
    let link = Link::new(LinkId::from_string("t".to_string()), 1, String::new(), String::new());
    assert!(link.created_at.secs >= 0 && link.created_at.nanos < 1_000_000_000);
    let user = User::new(String::new(), String::new(), String::new());
    assert!(user.created_at.secs >= 0 && user.updated_at.nanos < 1_000_000_000);
    let mut account = AccountLink::new(AccountLinkId::default(), 1, String::new());
    account.increment_views();
    let seen = account.last_view.unwrap();
    assert!(seen.secs >= 0 && seen.nanos < 1_000_000_000);
}
