use tapplet_host::error::{
    create_error, delete_error, retrieve_error, update_error, DatabaseError, Error,
};
use tapplet_host::models::{
    CreateDevTapplet, CreateInstalledTapplet, CreateTapplet, CreateTappletAsset,
    CreateTappletAudit, CreateTappletVersion, UpdateDevTapplet, UpdateTapplet,
};
use tapplet_host::store::CatalogStore;

fn sample_tapplet(display_name: &str) -> CreateTapplet {
    CreateTapplet {
        tapp_registry_id: String::from("registry.example/app"),
        display_name: String::from(display_name),
        logo_url: String::from("https://example.test/logo.png"),
        background_url: String::from("https://example.test/bg.png"),
        author_name: String::from("Author"),
        author_website: String::from("https://example.test"),
        about_summary: String::from("summary"),
        about_description: String::from("description"),
        category: String::from("tools"),
    }
}

fn update_tapplet_named(display_name: &str) -> UpdateTapplet {
    UpdateTapplet {
        tapp_registry_id: String::from("registry.example/app"),
        display_name: String::from(display_name),
        logo_url: String::from("https://example.test/logo.png"),
        background_url: String::from("https://example.test/bg.png"),
        author_name: String::from("Author"),
        author_website: String::from("https://example.test"),
        about_summary: String::from("summary"),
        about_description: String::from("description"),
        category: String::from("tools"),
    }
}

#[test]
fn error_constructors_carry_the_entity_name() {
    let cases = [
        (retrieve_error("Tapplet"), "retrieve"),
        (create_error("Tapplet"), "create"),
        (update_error("Tapplet"), "update"),
        (delete_error("Tapplet"), "delete"),
    ];
    for (e, kind) in cases {
        let name = match e {
            Error::DatabaseError(DatabaseError::FailedToRetrieveData { entity_name }) => {
                assert_eq!(kind, "retrieve");
                entity_name
            },
            Error::DatabaseError(DatabaseError::FailedToCreate { entity_name }) => {
                assert_eq!(kind, "create");
                entity_name
            },
            Error::DatabaseError(DatabaseError::FailedToUpdate { entity_name }) => {
                assert_eq!(kind, "update");
                entity_name
            },
            Error::DatabaseError(DatabaseError::FailedToDelete { entity_name }) => {
                assert_eq!(kind, "delete");
                entity_name
            },
            _ => panic!("expected a catalog store error"),
        };
        assert_eq!(name, "Tapplet");
    }
}

#[test]
fn tapplet_store_round_trip() {
    // Create with display name "X", fetch, update to "Y", fetch, delete,
    // and the final fetch reports FailedToRetrieveData for "Tapplet".
    let mut store = CatalogStore::new();
    let created = store.create_tapplet(&sample_tapplet("X")).unwrap();
    assert_eq!(created.id, 1);
    assert_eq!(created.display_name, "X");

    let fetched = store.get_tapplet_by_id(created.id).unwrap();
    assert_eq!(fetched.id, created.id);
    assert_eq!(fetched.display_name, "X");
    assert_eq!(fetched.category, "tools");

    let affected = store.update_tapplet(created.id, &update_tapplet_named("Y")).unwrap();
    assert_eq!(affected, 1);
    let fetched = store.get_tapplet_by_id(created.id).unwrap();
    assert_eq!(fetched.display_name, "Y");

    let removed = store.delete_tapplet(created.id).unwrap();
    assert_eq!(removed, 1);
    match store.get_tapplet_by_id(created.id) {
        Err(Error::DatabaseError(DatabaseError::FailedToRetrieveData { entity_name })) => {
            assert_eq!(entity_name, "Tapplet");
        },
        _ => panic!("expected FailedToRetrieveData"),
    }
}

#[test]
fn ids_are_assigned_in_order_and_never_reused() {
    let mut store = CatalogStore::new();
    let a = store.create_tapplet(&sample_tapplet("a")).unwrap();
    let b = store.create_tapplet(&sample_tapplet("b")).unwrap();
    assert_eq!(a.id, 1);
    assert_eq!(b.id, 2);
    assert_eq!(store.delete_tapplet(a.id).unwrap(), 1);
    let c = store.create_tapplet(&sample_tapplet("c")).unwrap();
    assert_eq!(c.id, 3);
}

#[test]
fn update_and_delete_of_an_absent_id_affect_nothing() {
    let mut store = CatalogStore::new();
    assert_eq!(store.update_tapplet(9, &update_tapplet_named("Z")).unwrap(), 0);
    assert_eq!(store.delete_tapplet(9).unwrap(), 0);
    assert!(store.get_all_tapplets().unwrap().is_empty());
}

#[test]
fn get_all_returns_records_in_insertion_order() {
    let mut store = CatalogStore::new();
    store.create_tapplet(&sample_tapplet("first")).unwrap();
    store.create_tapplet(&sample_tapplet("second")).unwrap();
    store.create_tapplet(&sample_tapplet("third")).unwrap();
    let all = store.get_all_tapplets().unwrap();
    let names: Vec<&str> = all.iter().map(|t| t.display_name.as_str()).collect();
    assert_eq!(names, vec!["first", "second", "third"]);
}

#[test]
fn dev_tapplet_round_trip() {
    let mut store = CatalogStore::new();
    let created = store
        .create_dev_tapplet(&CreateDevTapplet {
            package_name: String::from("dev-app"),
            source: String::from("/home/dev/app"),
            display_name: String::from("Dev App"),
            csp: String::from("default-src 'self'"),
            tari_permissions: String::from("[]"),
        })
        .unwrap();
    let fetched = store.get_dev_tapplet_by_id(created.id).unwrap();
    assert_eq!(fetched.package_name, "dev-app");
    assert_eq!(fetched.csp, "default-src 'self'");
    match store.get_dev_tapplet_by_id(99) {
        Err(Error::DatabaseError(DatabaseError::FailedToRetrieveData { entity_name })) => {
            assert_eq!(entity_name, "Dev Tapplet");
        },
        _ => panic!("expected FailedToRetrieveData"),
    }
}

#[test]
fn dev_tapplet_update_and_delete_report_affected_rows() {
    let mut store = CatalogStore::new();
    let created = store
        .create_dev_tapplet(&CreateDevTapplet {
            package_name: String::from("dev-app"),
            source: String::from("/home/dev/app"),
            display_name: String::from("Dev App"),
            csp: String::from("default-src 'self'"),
            tari_permissions: String::from("[]"),
        })
        .unwrap();
    let affected = store
        .update_dev_tapplet(created.id, &UpdateDevTapplet {
            package_name: String::from("dev-app"),
            source: String::from("/home/dev/app"),
            display_name: String::from("Renamed"),
            csp: String::from("default-src 'self'"),
            tari_permissions: String::from("[]"),
        })
        .unwrap();
    assert_eq!(affected, 1);
    assert_eq!(store.get_dev_tapplet_by_id(created.id).unwrap().display_name, "Renamed");
    assert_eq!(store.delete_dev_tapplet(created.id).unwrap(), 1);
    assert_eq!(store.delete_dev_tapplet(created.id).unwrap(), 0);
    assert!(store.get_all_dev_tapplets().unwrap().is_empty());
}

#[test]
fn every_entity_supports_create_and_get() {
    let mut store = CatalogStore::new();
    let installed = store
        .create_installed_tapplet(&CreateInstalledTapplet {
            tapplet_id: 4,
            tapplet_version_id: 2,
            source: String::from("registry"),
            csp: String::from("default-src 'self'"),
            tari_permissions: String::from("[]"),
        })
        .unwrap();
    assert_eq!(store.get_installed_tapplet_by_id(installed.id).unwrap().tapplet_id, 4);

    let version = store
        .create_tapplet_version(&CreateTappletVersion {
            tapplet_id: 4,
            version: String::from("1.2.3"),
            integrity: String::from("sha512-abc"),
            registry_url: String::from("https://registry.example"),
        })
        .unwrap();
    assert_eq!(store.get_tapplet_version_by_id(version.id).unwrap().version, "1.2.3");

    let audit = store
        .create_tapplet_audit(&CreateTappletAudit {
            tapplet_id: 4,
            auditor: String::from("auditor"),
            report_url: String::from("https://report.example"),
        })
        .unwrap();
    assert_eq!(store.get_tapplet_audit_by_id(audit.id).unwrap().auditor, "auditor");

    let asset = store
        .create_tapplet_asset(&CreateTappletAsset {
            tapplet_id: 4,
            icon_url: String::from("https://example.test/icon.png"),
            background_url: String::from("https://example.test/bg.png"),
        })
        .unwrap();
    assert_eq!(store.get_tapplet_asset_by_id(asset.id).unwrap().icon_url, "https://example.test/icon.png");

    // Tables are independent: each entity's first record has id 1.
    assert_eq!(installed.id, 1);
    assert_eq!(version.id, 1);
    assert_eq!(audit.id, 1);
    assert_eq!(asset.id, 1);
}
