use vstd::prelude::*;

verus! {

/// A tapplet under local development, loaded from its source directory.
pub struct DevTapplet {
    pub id: i32,
    pub package_name: String,
    pub source: String,
    pub display_name: String,
    pub csp: String,
    pub tari_permissions: String,
}

/// The abstraction of a `DevTapplet` record.
pub struct DevTappletV {
    pub id: int,
    pub package_name: Seq<char>,
    pub source: Seq<char>,
    pub display_name: Seq<char>,
    pub csp: Seq<char>,
    pub tari_permissions: Seq<char>,
}

impl View for DevTapplet {
    type V = DevTappletV;

    open spec fn view(&self) -> DevTappletV {
        DevTappletV {
            id: self.id as int,
            package_name: self.package_name@,
            source: self.source@,
            display_name: self.display_name@,
            csp: self.csp@,
            tari_permissions: self.tari_permissions@,
        }
    }
}

impl Clone for DevTapplet {
    fn clone(&self) -> (r: Self)
        ensures
            r@ == self@,
    {
        DevTapplet {
            id: self.id,
            package_name: self.package_name.clone(),
            source: self.source.clone(),
            display_name: self.display_name.clone(),
            csp: self.csp.clone(),
            tari_permissions: self.tari_permissions.clone(),
        }
    }
}

/// The fields of a dev tapplet to be created; the store assigns the id.
pub struct CreateDevTapplet {
    pub package_name: String,
    pub source: String,
    pub display_name: String,
    pub csp: String,
    pub tari_permissions: String,
}

/// The full replacement fields for an existing dev tapplet.
pub struct UpdateDevTapplet {
    pub package_name: String,
    pub source: String,
    pub display_name: String,
    pub csp: String,
    pub tari_permissions: String,
}

/// The record a creation stores under a fresh id.
pub open spec fn dev_tapplet_created(item: CreateDevTapplet, id: int) -> DevTappletV {
    DevTappletV {
        id,
        package_name: item.package_name@,
        source: item.source@,
        display_name: item.display_name@,
        csp: item.csp@,
        tari_permissions: item.tari_permissions@,
    }
}

/// The record an update leaves under the given id.
pub open spec fn dev_tapplet_updated(item: UpdateDevTapplet, id: int) -> DevTappletV {
    DevTappletV {
        id,
        package_name: item.package_name@,
        source: item.source@,
        display_name: item.display_name@,
        csp: item.csp@,
        tari_permissions: item.tari_permissions@,
    }
}

/// A released tapplet as listed in the public registry.
pub struct Tapplet {
    pub id: i32,
    pub tapp_registry_id: String,
    pub display_name: String,
    pub logo_url: String,
    pub background_url: String,
    pub author_name: String,
    pub author_website: String,
    pub about_summary: String,
    pub about_description: String,
    pub category: String,
}

/// The abstraction of a `Tapplet` record.
pub struct TappletV {
    pub id: int,
    pub tapp_registry_id: Seq<char>,
    pub display_name: Seq<char>,
    pub logo_url: Seq<char>,
    pub background_url: Seq<char>,
    pub author_name: Seq<char>,
    pub author_website: Seq<char>,
    pub about_summary: Seq<char>,
    pub about_description: Seq<char>,
    pub category: Seq<char>,
}

impl View for Tapplet {
    type V = TappletV;

    open spec fn view(&self) -> TappletV {
        TappletV {
            id: self.id as int,
            tapp_registry_id: self.tapp_registry_id@,
            display_name: self.display_name@,
            logo_url: self.logo_url@,
            background_url: self.background_url@,
            author_name: self.author_name@,
            author_website: self.author_website@,
            about_summary: self.about_summary@,
            about_description: self.about_description@,
            category: self.category@,
        }
    }
}

impl Clone for Tapplet {
    fn clone(&self) -> (r: Self)
        ensures
            r@ == self@,
    {
        Tapplet {
            id: self.id,
            tapp_registry_id: self.tapp_registry_id.clone(),
            display_name: self.display_name.clone(),
            logo_url: self.logo_url.clone(),
            background_url: self.background_url.clone(),
            author_name: self.author_name.clone(),
            author_website: self.author_website.clone(),
            about_summary: self.about_summary.clone(),
            about_description: self.about_description.clone(),
            category: self.category.clone(),
        }
    }
}

/// The fields of a tapplet to be created; the store assigns the id.
pub struct CreateTapplet {
    pub tapp_registry_id: String,
    pub display_name: String,
    pub logo_url: String,
    pub background_url: String,
    pub author_name: String,
    pub author_website: String,
    pub about_summary: String,
    pub about_description: String,
    pub category: String,
}

/// The full replacement fields for an existing tapplet.
pub struct UpdateTapplet {
    pub tapp_registry_id: String,
    pub display_name: String,
    pub logo_url: String,
    pub background_url: String,
    pub author_name: String,
    pub author_website: String,
    pub about_summary: String,
    pub about_description: String,
    pub category: String,
}

/// The record a creation stores under a fresh id.
pub open spec fn tapplet_created(item: CreateTapplet, id: int) -> TappletV {
    TappletV {
        id,
        tapp_registry_id: item.tapp_registry_id@,
        display_name: item.display_name@,
        logo_url: item.logo_url@,
        background_url: item.background_url@,
        author_name: item.author_name@,
        author_website: item.author_website@,
        about_summary: item.about_summary@,
        about_description: item.about_description@,
        category: item.category@,
    }
}

/// The record an update leaves under the given id.
pub open spec fn tapplet_updated(item: UpdateTapplet, id: int) -> TappletV {
    TappletV {
        id,
        tapp_registry_id: item.tapp_registry_id@,
        display_name: item.display_name@,
        logo_url: item.logo_url@,
        background_url: item.background_url@,
        author_name: item.author_name@,
        author_website: item.author_website@,
        about_summary: item.about_summary@,
        about_description: item.about_description@,
        category: item.category@,
    }
}

/// An installed copy of a released tapplet, at a pinned version.
pub struct InstalledTapplet {
    pub id: i32,
    pub tapplet_id: i32,
    pub tapplet_version_id: i32,
    pub source: String,
    pub csp: String,
    pub tari_permissions: String,
}

/// The abstraction of a `InstalledTapplet` record.
pub struct InstalledTappletV {
    pub id: int,
    pub tapplet_id: int,
    pub tapplet_version_id: int,
    pub source: Seq<char>,
    pub csp: Seq<char>,
    pub tari_permissions: Seq<char>,
}

impl View for InstalledTapplet {
    type V = InstalledTappletV;

    open spec fn view(&self) -> InstalledTappletV {
        InstalledTappletV {
            id: self.id as int,
            tapplet_id: self.tapplet_id as int,
            tapplet_version_id: self.tapplet_version_id as int,
            source: self.source@,
            csp: self.csp@,
            tari_permissions: self.tari_permissions@,
        }
    }
}

impl Clone for InstalledTapplet {
    fn clone(&self) -> (r: Self)
        ensures
            r@ == self@,
    {
        InstalledTapplet {
            id: self.id,
            tapplet_id: self.tapplet_id,
            tapplet_version_id: self.tapplet_version_id,
            source: self.source.clone(),
            csp: self.csp.clone(),
            tari_permissions: self.tari_permissions.clone(),
        }
    }
}

/// The fields of a installed tapplet to be created; the store assigns the id.
pub struct CreateInstalledTapplet {
    pub tapplet_id: i32,
    pub tapplet_version_id: i32,
    pub source: String,
    pub csp: String,
    pub tari_permissions: String,
}

/// The full replacement fields for an existing installed tapplet.
pub struct UpdateInstalledTapplet {
    pub tapplet_id: i32,
    pub tapplet_version_id: i32,
    pub source: String,
    pub csp: String,
    pub tari_permissions: String,
}

/// The record a creation stores under a fresh id.
pub open spec fn installed_tapplet_created(item: CreateInstalledTapplet, id: int) -> InstalledTappletV {
    InstalledTappletV {
        id,
        tapplet_id: item.tapplet_id as int,
        tapplet_version_id: item.tapplet_version_id as int,
        source: item.source@,
        csp: item.csp@,
        tari_permissions: item.tari_permissions@,
    }
}

/// The record an update leaves under the given id.
pub open spec fn installed_tapplet_updated(item: UpdateInstalledTapplet, id: int) -> InstalledTappletV {
    InstalledTappletV {
        id,
        tapplet_id: item.tapplet_id as int,
        tapplet_version_id: item.tapplet_version_id as int,
        source: item.source@,
        csp: item.csp@,
        tari_permissions: item.tari_permissions@,
    }
}

/// One published version of a tapplet, with its integrity digest.
pub struct TappletVersion {
    pub id: i32,
    pub tapplet_id: i32,
    pub version: String,
    pub integrity: String,
    pub registry_url: String,
}

/// The abstraction of a `TappletVersion` record.
pub struct TappletVersionV {
    pub id: int,
    pub tapplet_id: int,
    pub version: Seq<char>,
    pub integrity: Seq<char>,
    pub registry_url: Seq<char>,
}

impl View for TappletVersion {
    type V = TappletVersionV;

    open spec fn view(&self) -> TappletVersionV {
        TappletVersionV {
            id: self.id as int,
            tapplet_id: self.tapplet_id as int,
            version: self.version@,
            integrity: self.integrity@,
            registry_url: self.registry_url@,
        }
    }
}

impl Clone for TappletVersion {
    fn clone(&self) -> (r: Self)
        ensures
            r@ == self@,
    {
        TappletVersion {
            id: self.id,
            tapplet_id: self.tapplet_id,
            version: self.version.clone(),
            integrity: self.integrity.clone(),
            registry_url: self.registry_url.clone(),
        }
    }
}

/// The fields of a tapplet version to be created; the store assigns the id.
pub struct CreateTappletVersion {
    pub tapplet_id: i32,
    pub version: String,
    pub integrity: String,
    pub registry_url: String,
}

/// The full replacement fields for an existing tapplet version.
pub struct UpdateTappletVersion {
    pub tapplet_id: i32,
    pub version: String,
    pub integrity: String,
    pub registry_url: String,
}

/// The record a creation stores under a fresh id.
pub open spec fn tapplet_version_created(item: CreateTappletVersion, id: int) -> TappletVersionV {
    TappletVersionV {
        id,
        tapplet_id: item.tapplet_id as int,
        version: item.version@,
        integrity: item.integrity@,
        registry_url: item.registry_url@,
    }
}

/// The record an update leaves under the given id.
pub open spec fn tapplet_version_updated(item: UpdateTappletVersion, id: int) -> TappletVersionV {
    TappletVersionV {
        id,
        tapplet_id: item.tapplet_id as int,
        version: item.version@,
        integrity: item.integrity@,
        registry_url: item.registry_url@,
    }
}

/// A security audit recorded for a tapplet.
pub struct TappletAudit {
    pub id: i32,
    pub tapplet_id: i32,
    pub auditor: String,
    pub report_url: String,
}

/// The abstraction of a `TappletAudit` record.
pub struct TappletAuditV {
    pub id: int,
    pub tapplet_id: int,
    pub auditor: Seq<char>,
    pub report_url: Seq<char>,
}

impl View for TappletAudit {
    type V = TappletAuditV;

    open spec fn view(&self) -> TappletAuditV {
        TappletAuditV {
            id: self.id as int,
            tapplet_id: self.tapplet_id as int,
            auditor: self.auditor@,
            report_url: self.report_url@,
        }
    }
}

impl Clone for TappletAudit {
    fn clone(&self) -> (r: Self)
        ensures
            r@ == self@,
    {
        TappletAudit {
            id: self.id,
            tapplet_id: self.tapplet_id,
            auditor: self.auditor.clone(),
            report_url: self.report_url.clone(),
        }
    }
}

/// The fields of a tapplet audit to be created; the store assigns the id.
pub struct CreateTappletAudit {
    pub tapplet_id: i32,
    pub auditor: String,
    pub report_url: String,
}

/// The full replacement fields for an existing tapplet audit.
pub struct UpdateTappletAudit {
    pub tapplet_id: i32,
    pub auditor: String,
    pub report_url: String,
}

/// The record a creation stores under a fresh id.
pub open spec fn tapplet_audit_created(item: CreateTappletAudit, id: int) -> TappletAuditV {
    TappletAuditV {
        id,
        tapplet_id: item.tapplet_id as int,
        auditor: item.auditor@,
        report_url: item.report_url@,
    }
}

/// The record an update leaves under the given id.
pub open spec fn tapplet_audit_updated(item: UpdateTappletAudit, id: int) -> TappletAuditV {
    TappletAuditV {
        id,
        tapplet_id: item.tapplet_id as int,
        auditor: item.auditor@,
        report_url: item.report_url@,
    }
}

/// The visual assets shipped with a tapplet.
pub struct TappletAsset {
    pub id: i32,
    pub tapplet_id: i32,
    pub icon_url: String,
    pub background_url: String,
}

/// The abstraction of a `TappletAsset` record.
pub struct TappletAssetV {
    pub id: int,
    pub tapplet_id: int,
    pub icon_url: Seq<char>,
    pub background_url: Seq<char>,
}

impl View for TappletAsset {
    type V = TappletAssetV;

    open spec fn view(&self) -> TappletAssetV {
        TappletAssetV {
            id: self.id as int,
            tapplet_id: self.tapplet_id as int,
            icon_url: self.icon_url@,
            background_url: self.background_url@,
        }
    }
}

impl Clone for TappletAsset {
    fn clone(&self) -> (r: Self)
        ensures
            r@ == self@,
    {
        TappletAsset {
            id: self.id,
            tapplet_id: self.tapplet_id,
            icon_url: self.icon_url.clone(),
            background_url: self.background_url.clone(),
        }
    }
}

/// The fields of a tapplet asset to be created; the store assigns the id.
pub struct CreateTappletAsset {
    pub tapplet_id: i32,
    pub icon_url: String,
    pub background_url: String,
}

/// The full replacement fields for an existing tapplet asset.
pub struct UpdateTappletAsset {
    pub tapplet_id: i32,
    pub icon_url: String,
    pub background_url: String,
}

/// The record a creation stores under a fresh id.
pub open spec fn tapplet_asset_created(item: CreateTappletAsset, id: int) -> TappletAssetV {
    TappletAssetV {
        id,
        tapplet_id: item.tapplet_id as int,
        icon_url: item.icon_url@,
        background_url: item.background_url@,
    }
}

/// The record an update leaves under the given id.
pub open spec fn tapplet_asset_updated(item: UpdateTappletAsset, id: int) -> TappletAssetV {
    TappletAssetV {
        id,
        tapplet_id: item.tapplet_id as int,
        icon_url: item.icon_url@,
        background_url: item.background_url@,
    }
}

} // verus!
