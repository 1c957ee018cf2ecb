use short_link::domain::auth::entity::user::User;
use short_link::domain::auth::infra::persistence::AuthPersistenceRepo;
use short_link::domain::auth::service::{AuthError, AuthService, PersistenceError as AuthStoreError};
use short_link::domain::link_manager::entity::link::{Link, LinkId};
use short_link::domain::link_manager::service::{
    CacheOutcome, CacheRead, LinkManagerError, LinkManagerService, PersistenceError as LinkStoreError,
};
use short_link::domain::user_manager::service::{
    PersistenceError as UserStoreError, UserManagerError, UserManagerService,
};
use short_link::time::Timestamp;

fn stored_user(id: i32, name: &str) -> User {
    User {
        id,
        name: name.to_string(),
        email: "a@b.c".to_string(),
        password: "h".to_string(),
        created_at: Timestamp { secs: 1, nanos: 2 },
        updated_at: Timestamp { secs: 3, nanos: 4 },
    }
}

fn stored_link(id: &str, owner: i32, views: i64) -> Link {
    Link::from_parts(
        LinkId::from_string(id.to_string()),
        owner,
        "https://example.org".to_string(),
        "ex".to_string(),
        views,
        Timestamp { secs: 10, nanos: 0 },
        None,
    )
}

#[test]
fn register_saves_a_user_only_for_a_free_address() {
    let service = AuthService::new(AuthPersistenceRepo::new(()), ());
    let pending = service.register("Ann".to_string(), "ann@x.org".to_string(), "h1".to_string());
    assert_eq!(pending.email, "ann@x.org");
    let to_save = service.register_after_lookup(pending, Ok(None)).unwrap();
    assert_eq!(to_save.id, 0);
    assert_eq!(to_save.name, "Ann");
    assert_eq!(to_save.email, "ann@x.org");
    assert_eq!(to_save.password, "h1");
    assert_eq!(service.register_after_save(Ok(17)).unwrap(), 17);

    let pending = service.register("Ann".to_string(), "a@b.c".to_string(), "h1".to_string());
    let refused = service.register_after_lookup(pending, Ok(Some(stored_user(3, "Old"))));
    assert!(matches!(refused, Err(AuthError::UserAlreadyExists)));
}

#[test]
fn register_passes_store_failures_on() {
    let service = AuthService::new((), ());
    let pending = service.register("A".to_string(), "e".to_string(), "p".to_string());
    match service.register_after_lookup(pending, Err(AuthStoreError::InternalError("boom".to_string()))) {
        Err(AuthError::PersistenceError(AuthStoreError::InternalError(m))) => assert_eq!(m, "boom"),
        other => panic!("unexpected {:?}", other),
    }
    match service.register_after_save(Err(AuthStoreError::TrxFactoryError("no trx".to_string()))) {
        Err(AuthError::PersistenceError(AuthStoreError::TrxFactoryError(m))) => assert_eq!(m, "no trx"),
        other => panic!("unexpected {:?}", other),
    }
}

#[test]
fn login_needs_a_matching_user() {
    let service = AuthService::new((), ());
    assert_eq!(service.login_after_lookup(Ok(Some(stored_user(9, "Z")))).unwrap().id, 9);
    assert!(matches!(service.login_after_lookup(Ok(None)), Err(AuthError::IncorrectEmailOrPassword)));
    assert!(matches!(
        service.login_after_lookup(Err(AuthStoreError::InternalError(String::new()))),
        Err(AuthError::PersistenceError(_))
    ));
}

#[test]
fn rename_changes_the_name_alone() {
    let service = UserManagerService::new((), ());
    let pending = service.change_name(4, "New".to_string());
    let renamed = service.change_name_after_lookup(pending, Ok(Some(stored_user(4, "Old")))).unwrap();
    assert_eq!(renamed.name, "New");
    assert_eq!(renamed.id, 4);
    assert_eq!(renamed.email, "a@b.c");
    assert_eq!(renamed.password, "h");
    assert_eq!(renamed.created_at, Timestamp { secs: 1, nanos: 2 });
    assert_eq!(renamed.updated_at, Timestamp { secs: 3, nanos: 4 });
    assert!(service.change_name_after_save(Ok(4)).is_ok());

    let pending = service.change_name(8, "X".to_string());
    assert!(matches!(service.change_name_after_lookup(pending, Ok(None)), Err(UserManagerError::UserNotFound(8))));
    assert!(matches!(
        service.change_name_after_save(Err(UserStoreError::InternalError("e".to_string()))),
        Err(UserManagerError::PersistenceError(_))
    ));
}

#[test]
fn user_info_lookup() {
    let service = UserManagerService::new((), ());
    assert_eq!(service.get_user_info_after_lookup(2, Ok(Some(stored_user(2, "B")))).unwrap().name, "B");
    assert!(matches!(service.get_user_info_after_lookup(2, Ok(None)), Err(UserManagerError::UserNotFound(2))));
}

#[test]
fn create_link_saves_an_unviewed_link_under_the_fresh_id() {
    let service = LinkManagerService::new((), (), (), 60);
    let pending = service.create_link(5, "https://x.y".to_string(), "lbl".to_string());
    let link = service.create_link_after_id(pending, Ok(LinkId::from_string("AbC1".to_string()))).unwrap();
    assert_eq!(link.id.value, "AbC1");
    assert_eq!(link.user_id, 5);
    assert_eq!(link.redirect_url, "https://x.y");
    assert_eq!(link.label, "lbl");
    assert_eq!(link.views, 0);
    assert!(link.last_view.is_none());
    assert_eq!(service.create_link_after_save(link, Ok(())).unwrap().value, "AbC1");

    let pending = service.create_link(5, "u".to_string(), "l".to_string());
    assert!(matches!(
        service.create_link_after_id(pending, Err(LinkStoreError::InternalError("x".to_string()))),
        Err(LinkManagerError::PersistenceError(_))
    ));
}

#[test]
fn cache_hits_are_served_without_the_store() {
    let service = LinkManagerService::new((), (), (), 60);
    let id = LinkId::from_string("hit1".to_string());
    assert_eq!(service.cache_key(&id), "hit1");
    match service.get_and_cache_link_after_cache(CacheRead::Hit(Ok(stored_link("hit1", 1, 3)))) {
        CacheOutcome::Served(Ok(link)) => assert_eq!(link.views, 3),
        other => panic!("unexpected {:?}", other),
    }
    match service.get_and_cache_link_after_cache(CacheRead::Hit(Err("expected value".to_string()))) {
        CacheOutcome::Served(Err(e)) => assert_eq!(e.to_string(), "failed to deserialize: expected value"),
        other => panic!("unexpected {:?}", other),
    }
    assert!(matches!(service.get_and_cache_link_after_cache(CacheRead::Miss), CacheOutcome::QueryStore));
}

#[test]
fn store_answers_are_cached_under_the_read_key() {
    let service = LinkManagerService::new((), (), (), 3600);
    let id = LinkId::from_string("m1ss".to_string());
    let (result, write) = service.get_and_cache_link_after_query(&id, Ok(Some(stored_link("m1ss", 2, 8))));
    assert_eq!(result.unwrap().views, 8);
    let write = write.unwrap();
    assert_eq!(write.key, service.cache_key(&id));
    assert_eq!(write.link.views, 8);
    assert_eq!(write.expire_secs, 3600);

    let (result, write) = service.get_and_cache_link_after_query(&id, Ok(None));
    match result {
        Err(LinkManagerError::LinkNotFound(missing)) => assert_eq!(missing.value, "m1ss"),
        other => panic!("unexpected {:?}", other),
    }
    assert!(write.is_none());
    let (result, write) = service.get_and_cache_link_after_query(&id, Err(LinkStoreError::InternalError("q".to_string())));
    assert!(matches!(result, Err(LinkManagerError::PersistenceError(_))));
    assert!(write.is_none());
}

#[test]
fn a_view_is_counted_only_for_a_fetched_link() {
    let service = LinkManagerService::new((), (), (), 1);
    let id = LinkId::from_string("v1ew".to_string());
    let pending = service.view_link_after_fetch(&id, Ok(stored_link("v1ew", 1, 41))).unwrap();
    assert_eq!(pending.link_id.value, "v1ew");
    let shown = service.view_link_after_increment(pending, Ok(())).unwrap();
    assert_eq!(shown.views, 41);
    assert_eq!(shown.redirect_url, "https://example.org");

    let fetched = Err(LinkManagerError::LinkNotFound(id.clone()));
    assert!(matches!(service.view_link_after_fetch(&id, fetched), Err(LinkManagerError::LinkNotFound(_))));
    let pending = service.view_link_after_fetch(&id, Ok(stored_link("v1ew", 1, 0))).unwrap();
    assert!(matches!(
        service.view_link_after_increment(pending, Err(LinkStoreError::InternalError("w".to_string()))),
        Err(LinkManagerError::PersistenceError(_))
    ));
}

#[test]
fn link_views_are_read_from_the_store() {
    let service = LinkManagerService::new((), (), (), 1);
    let id = LinkId::from_string("cnt".to_string());
    assert_eq!(service.get_link_views_after_lookup(&id, Ok(Some(stored_link("cnt", 1, 77)))).unwrap(), 77);
    assert!(matches!(service.get_link_views_after_lookup(&id, Ok(None)), Err(LinkManagerError::LinkNotFound(_))));
}

#[test]
fn only_the_owner_deletes_a_link() {
    let service = LinkManagerService::new((), (), (), 1);
    let id = LinkId::from_string("del".to_string());
    let to_delete = service.delete_link_after_lookup(id.clone(), 6, Ok(Some(stored_link("del", 6, 0)))).unwrap();
    assert_eq!(to_delete.value, "del");
    assert!(service.delete_link_after_delete(Ok(())).is_ok());
    match service.delete_link_after_lookup(id.clone(), 7, Ok(Some(stored_link("del", 6, 0)))) {
        Err(LinkManagerError::LinkNotOwnedByUser(l, u)) => {
            assert_eq!(l.value, "del");
            assert_eq!(u, 7);
        },
        other => panic!("unexpected {:?}", other),
    }
    assert!(matches!(service.delete_link_after_lookup(id, 6, Ok(None)), Err(LinkManagerError::LinkNotFound(_))));
    assert!(matches!(
        service.delete_link_after_delete(Err(LinkStoreError::TrxFactoryError("t".to_string()))),
        Err(LinkManagerError::PersistenceError(_))
    ));
}

#[test]
fn service_parts_are_kept() {
    let service = LinkManagerService::new(1u8, 2u16, 3u32, 45);
    assert_eq!(*service.persistence_repo(), 1);
    assert_eq!(*service.trx_factory(), 2);
    assert_eq!(*service.redis_client(), 3);
    assert_eq!(service.cache_expr_sec(), 45);
    let auth = AuthService::new(6u8, 7u8);
    assert_eq!((*auth.persistence_repo(), *auth.trx_factory()), (6, 7));
    let users = UserManagerService::new(8u8, 9u8);
    assert_eq!((*users.persistence_repo(), *users.trx_factory()), (8, 9));
}

#[test]
fn renaming_then_reading_gives_the_new_name() {
    let service = UserManagerService::new((), ());
    let stored = stored_user(4, "Old");
    let pending = service.change_name(4, "New".to_string());
    let saved_row = service.change_name_after_lookup(pending, Ok(Some(stored))).unwrap();
    assert!(service.change_name_after_save(Ok(4)).is_ok());
    let read = service.get_user_info_after_lookup(4, Ok(Some(saved_row))).unwrap();
    assert_eq!(read.id, 4);
    assert_eq!(read.name, "New");
}

#[test]
fn viewing_then_counting_gives_one_more() {
    let service = LinkManagerService::new((), (), (), 60);
    let id = LinkId::from_string("cnt1".to_string());
    let before = service.get_link_views_after_lookup(&id, Ok(Some(stored_link("cnt1", 1, 41)))).unwrap();
    let pending = service.view_link_after_fetch(&id, Ok(stored_link("cnt1", 1, 41))).unwrap();
    assert!(service.view_link_after_increment(pending, Ok(())).is_ok());
    let after = service.get_link_views_after_lookup(&id, Ok(Some(stored_link("cnt1", 1, before + 1)))).unwrap();
    assert_eq!(after, 42);
}
