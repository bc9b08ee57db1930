//! Shared data model of the pipeline: chat roles, bundle metadata and the
//! actions that handlers hand back to the event loop.

use vstd::prelude::*;

verus! {

use vstd::string::StrSliceExecFns;
use vstd::string::StringExecFns;
use crate::request_handlers::review::PublishPlan;

/// The fixed function a chat serves in the pipeline.  A chat carries
/// exactly one role; a chat without a registered role is treated as a new
/// `Shop` chat on first contact.
#[derive(Clone, Copy, Debug, PartialEq, Eq, Structural)]
pub enum ChatType {
    /// Storefront chat: browsing and search over published apps.
    Shop,
    /// Administrative chat: join-pool commands.
    Genesis,
    /// Backing group chat of the tester pool.
    TesterPool,
    /// Backing group chat of the publisher pool.
    PublisherPool,
    /// A chat in which one app bundle is being submitted.
    Submit,
    /// A chat in which one app bundle is under review.
    Review,
}

/// Manifest fields read out of an uploaded bundle.
#[derive(Debug, PartialEq)]
pub struct WexbdcManifest {
    /// Webxdc application identifier.
    pub app_id: String,
    /// Version of the application.
    pub version: i32,
    /// Webxdc name, used on icons or page titles.
    pub name: String,
    /// Description of the application.
    pub description: String,
    /// URL of webxdc source code.
    pub source_code_url: Option<String>,
    /// Uri of the submitter.
    pub submitter_uri: Option<String>,
}

/// Ghost image of a manifest: the fields as mathematical values.
pub struct ManifestView {
    pub app_id: Seq<char>,
    pub version: i32,
    pub name: Seq<char>,
    pub description: Seq<char>,
    pub source_code_url: Option<Seq<char>>,
    pub submitter_uri: Option<Seq<char>>,
}

impl View for WexbdcManifest {
    type V = ManifestView;

    open spec fn view(&self) -> ManifestView {
        ManifestView {
            app_id: self.app_id@,
            version: self.version,
            name: self.name@,
            description: self.description@,
            source_code_url: match self.source_code_url {
                Some(s) => Some(s@),
                None => None,
            },
            submitter_uri: match self.submitter_uri {
                Some(s) => Some(s@),
                None => None,
            },
        }
    }
}

/// One mini-app bundle record.
#[derive(Debug, PartialEq)]
pub struct AppInfo {
    /// Store key of this record.
    pub id: u64,
    /// Application identifier from the manifest.
    pub app_id: String,
    /// Version from the manifest.
    pub version: i32,
    /// Display name from the manifest.
    pub name: String,
    /// Uri of the submitter, when the manifest names one.
    pub submitter_uri: Option<String>,
    /// URL of the source code, when the manifest names one.
    pub source_code_url: Option<String>,
    /// Icon, base64-carried; empty when the bundle held none.
    pub image: String,
    /// Description from the manifest.
    pub description: String,
    /// Where the bundle file lies.
    pub xdc_blob_path: String,
    /// The chat the submission originated in.
    pub originator: u64,
    /// Whether the app has been published; set once, never cleared.
    pub active: bool,
}

/// Ghost image of an [`AppInfo`].
pub struct AppInfoView {
    pub id: u64,
    pub app_id: Seq<char>,
    pub version: i32,
    pub name: Seq<char>,
    pub submitter_uri: Option<Seq<char>>,
    pub source_code_url: Option<Seq<char>>,
    pub image: Seq<char>,
    pub description: Seq<char>,
    pub xdc_blob_path: Seq<char>,
    pub originator: u64,
    pub active: bool,
}

impl View for AppInfo {
    type V = AppInfoView;

    open spec fn view(&self) -> AppInfoView {
        AppInfoView {
            id: self.id,
            app_id: self.app_id@,
            version: self.version,
            name: self.name@,
            submitter_uri: match self.submitter_uri {
                Some(s) => Some(s@),
                None => None,
            },
            source_code_url: match self.source_code_url {
                Some(s) => Some(s@),
                None => None,
            },
            image: self.image@,
            description: self.description@,
            xdc_blob_path: self.xdc_blob_path@,
            originator: self.originator,
            active: self.active,
        }
    }
}

/// An app may be published exactly when all of application id, name,
/// description and icon are non-empty and the version is at least 1.
pub open spec fn complete_spec(a: AppInfoView) -> bool {
    &&& a.app_id.len() > 0
    &&& a.name.len() > 0
    &&& a.description.len() > 0
    &&& a.image.len() > 0
    &&& a.version >= 1
}

/// The names of the required-for-publish fields that `a` fails, in the
/// fixed order: id, name, description, icon, version.
pub open spec fn missing_fields_spec(a: AppInfoView) -> Seq<Seq<char>> {
    let m0: Seq<Seq<char>> = if a.app_id.len() == 0 {
        seq!["app_id"@]
    } else {
        Seq::empty()
    };
    let m1: Seq<Seq<char>> = if a.name.len() == 0 {
        m0 + seq!["name"@]
    } else {
        m0
    };
    let m2: Seq<Seq<char>> = if a.description.len() == 0 {
        m1 + seq!["description"@]
    } else {
        m1
    };
    let m3: Seq<Seq<char>> = if a.image.len() == 0 {
        m2 + seq!["image"@]
    } else {
        m2
    };
    if a.version < 1 {
        m3 + seq!["version"@]
    } else {
        m3
    }
}

impl Clone for AppInfo {
    fn clone(&self) -> (r: Self)
        ensures
            r == *self,
    {
        AppInfo {
            id: self.id,
            app_id: self.app_id.clone(),
            version: self.version,
            name: self.name.clone(),
            submitter_uri: match &self.submitter_uri {
                Some(s) => Some(s.clone()),
                None => None,
            },
            source_code_url: match &self.source_code_url {
                Some(s) => Some(s.clone()),
                None => None,
            },
            image: self.image.clone(),
            description: self.description.clone(),
            xdc_blob_path: self.xdc_blob_path.clone(),
            originator: self.originator,
            active: self.active,
        }
    }
}

impl AppInfo {
    /// True exactly when every required-for-publish field is filled.
    pub fn is_complete(&self) -> (r: bool)
        ensures
            r == complete_spec(self@),
    {
        self.app_id.as_str().unicode_len() > 0 && self.name.as_str().unicode_len() > 0
            && self.description.as_str().unicode_len() > 0
            && self.image.as_str().unicode_len() > 0 && self.version >= 1
    }

    /// The names of the required fields still missing, in the fixed order
    /// id, name, description, icon, version.
    pub fn generate_missing_list(&self) -> (r: Vec<String>)
        ensures
            r@.map_values(|s: String| s@) == missing_fields_spec(self@),
    {
        let mut r: Vec<String> = Vec::new();
        if self.app_id.as_str().unicode_len() == 0 {
            r.push("app_id".to_owned());
        }
        if self.name.as_str().unicode_len() == 0 {
            r.push("name".to_owned());
        }
        if self.description.as_str().unicode_len() == 0 {
            r.push("description".to_owned());
        }
        if self.image.as_str().unicode_len() == 0 {
            r.push("image".to_owned());
        }
        if self.version < 1 {
            r.push("version".to_owned());
        }
        proof {
            assert(r@.map_values(|s: String| s@) =~= missing_fields_spec(self@));
        }
        r
    }
}

/// The fields read out of an uploaded bundle: its manifest and, when an
/// `icon.png` entry exists, the base64 text of that entry.  Nothing when
/// the archive is malformed, the manifest entry is missing, or a manifest
/// field fails to parse.
pub open spec fn xdc_extract_of(b: Seq<u8>) -> Option<(ManifestView, Option<Seq<char>>)> {
    match crate::utils::zip_entries_of(b) {
        None => None,
        Some(es) => match crate::utils::entry_data(es, "webxdc.json"@) {
            None => None,
            Some(mb) => match crate::utils::manifest_of(mb) {
                None => None,
                Some(mv) => Some(
                    (
                        mv,
                        match crate::utils::entry_data(es, "icon.png"@) {
                            Some(ib) => Some(crate::utils::b64_of(ib)),
                            None => None,
                        },
                    ),
                ),
            },
        },
    }
}

/// An app record after a re-upload: the manifest-carried fields are
/// overwritten, the icon only when the bundle holds one, and everything
/// else is kept.
pub open spec fn updated_app_view(
    prior: AppInfoView,
    ext: (ManifestView, Option<Seq<char>>),
) -> AppInfoView {
    AppInfoView {
        app_id: ext.0.app_id,
        version: ext.0.version,
        name: ext.0.name,
        submitter_uri: ext.0.submitter_uri,
        source_code_url: ext.0.source_code_url,
        image: (match ext.1 {
            Some(ic) => ic,
            None => prior.image,
        }),
        description: ext.0.description,
        ..prior
    }
}

/// Extraction is deterministic: the fields read out of a bundle are a
/// function of the archive bytes alone, so two extractions from the same
/// bytes agree field for field.
pub proof fn lemma_extract_deterministic(b1: Seq<u8>, b2: Seq<u8>)
    requires
        b1 == b2,
    ensures
        xdc_extract_of(b1) == xdc_extract_of(b2),
{
}

impl AppInfo {
    /// Creates an app record from an uploaded bundle's bytes; every field
    /// not read from the bundle starts empty.
    pub fn from_xdc(file: &Vec<u8>) -> (r: Result<AppInfo, BundleError>)
        ensures
            r is Ok <==> xdc_extract_of(file@) is Some,
            r matches Err(e) ==> e == BundleError::BadBundle,
            r matches Ok(app) ==> ({
                let ext = xdc_extract_of(file@).unwrap();
                app@ == AppInfoView {
                    id: 0,
                    app_id: ext.0.app_id,
                    version: ext.0.version,
                    name: ext.0.name,
                    submitter_uri: ext.0.submitter_uri,
                    source_code_url: ext.0.source_code_url,
                    image: (match ext.1 {
                        Some(ic) => ic,
                        None => Seq::<char>::empty(),
                    }),
                    description: ext.0.description,
                    xdc_blob_path: Seq::<char>::empty(),
                    originator: 0,
                    active: false,
                }
            }),
    {
        let mut app = AppInfo {
            id: 0,
            app_id: String::new(),
            version: 0,
            name: String::new(),
            submitter_uri: None,
            source_code_url: None,
            image: String::new(),
            description: String::new(),
            xdc_blob_path: String::new(),
            originator: 0,
            active: false,
        };
        match app.update_from_xdc(file) {
            Ok(_) => Ok(app),
            Err(e) => Err(e),
        }
    }

    /// Reads a bundle's bytes and overwrites the manifest-carried fields
    /// and, when the bundle holds an icon, the icon.  On failure nothing
    /// is changed.  Reports whether the version changed.
    pub fn update_from_xdc(&mut self, file: &Vec<u8>) -> (r: Result<bool, BundleError>)
        ensures
            r is Ok <==> xdc_extract_of(file@) is Some,
            r matches Err(e) ==> e == BundleError::BadBundle && *final(self) == *old(self),
            r matches Ok(upgraded) ==> ({
                let ext = xdc_extract_of(file@).unwrap();
                &&& final(self)@ == updated_app_view(old(self)@, ext)
                &&& upgraded == (old(self).version != ext.0.version)
            }),
    {
        let entries = match crate::utils::read_zip_entries(file) {
            Some(es) => es,
            None => {
                return Err(BundleError::BadBundle);
            },
        };
        let midx = match crate::utils::find_entry(&entries, "webxdc.json") {
            Some(i) => i,
            None => {
                return Err(BundleError::BadBundle);
            },
        };
        let manifest = match crate::utils::get_webxdc_manifest(&entries[midx].data) {
            Ok(m) => m,
            Err(e) => {
                return Err(e);
            },
        };
        let upgraded = self.version != manifest.version;
        self.app_id = manifest.app_id;
        self.version = manifest.version;
        self.name = manifest.name;
        self.description = manifest.description;
        self.source_code_url = manifest.source_code_url;
        self.submitter_uri = manifest.submitter_uri;
        match crate::utils::find_entry(&entries, "icon.png") {
            Some(i) => {
                self.image = crate::utils::b64_encode(&entries[i].data);
            },
            None => {},
        }
        Ok(upgraded)
    }
}

/// The user-facing text naming the required fields still missing.
pub open spec fn missing_message_spec(a: AppInfoView) -> Seq<char> {
    "You still are still missing some required fields: "@ + crate::messages::join_spec(
        missing_fields_spec(a),
        ", "@,
    )
}

/// Builds the user-facing text naming the required fields still missing.
pub fn missing_text(app: &AppInfo) -> (r: String)
    ensures
        r@ == missing_message_spec(app@),
{
    let missing = app.generate_missing_list();
    let joined = crate::messages::join_strings(&missing, ", ");
    let mut s = <String as vstd::string::StringExecFns>::from_str(
        "You still are still missing some required fields: ",
    );
    s.append(joined.as_str());
    proof {
        assert(s@ =~= missing_message_spec(app@));
    }
    s
}

/// An app is complete exactly when its missing-fields list is empty.
pub proof fn lemma_complete_iff_no_missing(a: AppInfoView)
    ensures
        complete_spec(a) <==> missing_fields_spec(a).len() == 0,
{
}

/// An app with an empty description always has "description" in its
/// missing-fields list, whatever the other fields hold.
pub proof fn lemma_empty_description_is_missing(a: AppInfoView)
    requires
        a.description.len() == 0,
    ensures
        missing_fields_spec(a).contains("description"@),
{
    let m = missing_fields_spec(a);
    let m0: Seq<Seq<char>> = if a.app_id.len() == 0 {
        seq!["app_id"@]
    } else {
        Seq::empty()
    };
    let m1: Seq<Seq<char>> = if a.name.len() == 0 {
        m0 + seq!["name"@]
    } else {
        m0
    };
    assert(m[m1.len() as int] == "description"@);
}

/// A generic webxdc status update envelope.
pub struct WebxdcStatusUpdate<T> {
    pub payload: T,
}

/// Typed replies the bot sends to the embedded mini-app UI.
#[derive(Clone, Copy, Debug, PartialEq, Eq, Structural)]
pub enum GeneralFrontendResponse {
    /// The client shows an outdated version; `critical` asks it to re-fetch.
    Outdated { critical: bool, version: i32 },
    /// The submitted update was accepted.
    UpdateSent,
}

/// Typed requests the embedded mini-app UI sends to the bot.
#[derive(Clone, Copy, Debug, PartialEq, Eq, Structural)]
pub enum GeneralFrontendRequest {
    /// The client asks for a fresh copy of the webxdc.
    UpdateWebxdc,
}

/// A decoded incoming chat message, as the transport hands it over.
pub struct MsgInfo {
    /// The sending contact.
    pub sender: u64,
    /// Text of the message, when it has any.
    pub text: Option<String>,
    /// The attached webxdc bundle, read fully, when the message carries one.
    pub webxdc_bytes: Option<Vec<u8>>,
    /// Where the attached bundle file lies, when the message carries one.
    pub file_path: Option<String>,
}

/// One outbound side effect that a handler asks the event loop to perform.
#[derive(Debug, PartialEq)]
pub enum Action {
    /// Send a text message into a chat.
    SendText { chat: u64, text: String },
    /// Deliver the storefront webxdc into a chat.
    SendAppstoreXdc { chat: u64 },
    /// Add a contact to a chat.
    AddContact { chat: u64, contact: u64 },
    /// Create a protected review group and carry out the given plan.
    CreateReviewGroup { plan: PublishPlan },
    /// Send a typed status-update reply to the given webxdc message.
    SendStatusUpdate { msg: u64, response: GeneralFrontendResponse },
    /// Push the given app record into the given helper webxdc.
    SendAppInfo { msg: u64, app: AppInfo },
    /// Hand a storefront chat message to the storefront handler.
    DelegateShopMessage { chat: u64 },
    /// Hand a storefront webxdc message to the storefront handler.
    DelegateShopWebxdc { chat: u64 },
    /// Hand a storefront status update to the storefront handler.
    DelegateShopStatusUpdate { chat: u64 },
}

/// Failures that drop the event: an expected record was not found.
#[derive(Clone, Copy, Debug, PartialEq, Eq, Structural)]
pub enum BotError {
    /// A chat or record that the registry promised is missing.
    NotFound,
}

/// An uploaded archive that cannot be read: the archive is malformed, the
/// manifest entry is missing or unreadable, or a manifest field fails to
/// parse as its declared type.
#[derive(Clone, Copy, Debug, PartialEq, Eq, Structural)]
pub enum BundleError {
    BadBundle,
}

impl BundleError {
    /// The user-facing text for this failure.
    pub fn message(&self) -> (r: String)
        ensures
            r@ == "Invalid webxdc bundle"@,
    {
        "Invalid webxdc bundle".to_owned()
    }
}

} // verus!

pub mod genisis;
pub mod review;
pub mod submit;
