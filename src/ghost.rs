//! What the CMS sends and answers: the publish event, members, pagination
//! metadata and site settings, and the reading of settings entries.
use vstd::prelude::*;

verus! {

#[verifier::external_type_specification]
#[verifier::external_body]
pub struct ExJsonValue(serde_json::Value);

/// The publish event delivered to the webhook.
#[derive(Debug)]
pub struct WebhookPayload {
    pub post: PostWrapper,
}

/// The post as it is now and as it was before the event.
#[derive(Debug)]
pub struct PostWrapper {
    pub current: Post,
    pub previous: PreviousPost,
}

/// A published post. Fields this library does not read are kept in `other`.
#[derive(Debug)]
pub struct Post {
    pub id: String,
    pub uuid: String,
    pub title: String,
    pub slug: String,
    pub html: String,
    pub comment_id: String,
    pub plaintext: String,
    pub feature_image: Option<String>,
    pub featured: bool,
    pub status: String,
    pub visibility: String,
    pub created_at: String,
    pub updated_at: String,
    pub published_at: String,
    pub url: String,
    pub excerpt: String,
    pub primary_author: Author,
    pub reading_time: u32,
    pub feature_image_alt: Option<String>,
    pub feature_image_caption: Option<String>,
    pub other: serde_json::Value,
}

/// The fields of the post before the event that this library keeps.
#[derive(Debug)]
pub struct PreviousPost {
    pub status: String,
    pub updated_at: String,
    pub published_at: Option<String>,
    pub other: serde_json::Value,
}

/// A post's primary author.
#[derive(Clone, Debug)]
pub struct Author {
    pub name: String,
    pub profile_image: Option<String>,
    pub bio: Option<String>,
    pub url: String,
}

/// One page of the members listing.
#[derive(Debug)]
pub struct MembersResponse {
    pub members: Vec<Member>,
    pub meta: Meta,
}

/// A subscriber.
#[derive(Debug)]
pub struct Member {
    pub id: String,
    pub email: String,
    pub name: Option<String>,
    pub status: String,
    pub created_at: String,
    pub updated_at: String,
    pub other: serde_json::Value,
}

/// Metadata of a members page.
#[derive(Clone, Copy, Debug)]
pub struct Meta {
    pub pagination: Pagination,
}

/// Where a members page stands in the listing.
#[derive(Clone, Copy, Debug)]
pub struct Pagination {
    pub page: u32,
    pub limit: u32,
    pub pages: u32,
    pub total: u32,
    pub next: Option<u32>,
    pub prev: Option<u32>,
}

/// The value of a settings entry, as far as this library reads it.
#[derive(Clone, Debug)]
pub enum SettingValue {
    /// A JSON string.
    Text(String),
    /// A number, a boolean, null or any other JSON value.
    Other,
}

/// One key/value pair of the settings listing.
#[derive(Clone, Debug)]
pub struct SettingEntry {
    pub key: String,
    pub value: SettingValue,
}

/// The settings listing.
#[derive(Debug)]
pub struct SettingsResponse {
    pub settings: Vec<SettingEntry>,
    pub meta: serde_json::Value,
}

/// The site settings that emails show.
#[derive(Clone, Debug)]
pub struct Settings {
    pub title: String,
    pub description: String,
    pub accent_color: Option<String>,
    pub url: String,
}

/// A required setting that is not a string.
#[derive(Clone, Copy, Debug, PartialEq, Eq, Structural)]
pub enum SettingsError {
    TitleNotString,
    DescriptionNotString,
}

/// The color used where the site names no accent color.
pub const DEFAULT_ACCENT_COLOR: &'static str = "#3eb0ef";

/// Title, description and accent color read so far.
pub type SettingsFields = (Seq<char>, Seq<char>, Option<Seq<char>>);

/// The effect of one entry on the fields read so far. The last entry of a
/// key wins; a non-string title or description is an error; a non-string
/// accent color counts as none; other keys are ignored.
pub open spec fn apply_entry(acc: SettingsFields, e: SettingEntry) -> Result<SettingsFields, SettingsError> {
    if e.key@ == "title"@ {
        match e.value {
            SettingValue::Text(s) => Ok((s@, acc.1, acc.2)),
            SettingValue::Other => Err(SettingsError::TitleNotString),
        }
    } else if e.key@ == "description"@ {
        match e.value {
            SettingValue::Text(s) => Ok((acc.0, s@, acc.2)),
            SettingValue::Other => Err(SettingsError::DescriptionNotString),
        }
    } else if e.key@ == "accent_color"@ {
        match e.value {
            SettingValue::Text(s) => Ok((acc.0, acc.1, Some(s@))),
            SettingValue::Other => Ok((acc.0, acc.1, None)),
        }
    } else {
        Ok(acc)
    }
}

/// The fields that a list of entries gives, read in order from empty fields;
/// the first failing entry decides the error.
pub open spec fn read_entries(entries: Seq<SettingEntry>) -> Result<SettingsFields, SettingsError>
    decreases entries.len(),
{
    if entries.len() == 0 {
        Ok((Seq::empty(), Seq::empty(), None))
    } else {
        match read_entries(entries.drop_last()) {
            Err(e) => Err(e),
            Ok(acc) => apply_entry(acc, entries.last()),
        }
    }
}

/// The fields of a `Settings` value.
pub open spec fn settings_fields(s: Settings) -> SettingsFields {
    (
        s.title@,
        s.description@,
        match s.accent_color {
            Some(c) => Some(c@),
            None => None,
        },
    )
}

/// Reads the site settings out of the settings listing; `url` becomes the
/// site's address.
pub fn settings_from_entries(entries: &Vec<SettingEntry>, url: &str) -> (r: Result<Settings, SettingsError>)
    ensures
        r is Ok <==> read_entries(entries@) is Ok,
        r matches Err(e) ==> read_entries(entries@) == Err::<SettingsFields, SettingsError>(e),
        r matches Ok(s) ==> Ok::<SettingsFields, SettingsError>(settings_fields(s)) == read_entries(
            entries@,
        ) && s.url@ == url@,
{
    let title_key = "title".to_owned();
    let description_key = "description".to_owned();
    let accent_key = "accent_color".to_owned();
    let mut title = String::new();
    let mut description = String::new();
    let mut accent_color: Option<String> = None;
    let mut i: usize = 0;
    while i < entries.len()
        invariant
            i <= entries@.len(),
            title_key@ == "title"@,
            description_key@ == "description"@,
            accent_key@ == "accent_color"@,
            read_entries(entries@.subrange(0, i as int)) == Ok::<SettingsFields, SettingsError>(
                (
                    title@,
                    description@,
                    match accent_color {
                        Some(c) => Some(c@),
                        None => None,
                    },
                ),
            ),
        decreases entries@.len() - i,
    {
        let e = &entries[i];
        proof {
            assert(entries@.subrange(0, i + 1).drop_last() =~= entries@.subrange(0, i as int));
            assert(entries@.subrange(0, i + 1).last() == entries@[i as int]);
        }
        if e.key == title_key {
            match &e.value {
                SettingValue::Text(s) => {
                    title = s.clone();
                },
                SettingValue::Other => {
                    proof {
                        lemma_error_persists(entries@, i as int + 1);
                    }
                    return Err(SettingsError::TitleNotString);
                },
            }
        } else if e.key == description_key {
            match &e.value {
                SettingValue::Text(s) => {
                    description = s.clone();
                },
                SettingValue::Other => {
                    proof {
                        lemma_error_persists(entries@, i as int + 1);
                    }
                    return Err(SettingsError::DescriptionNotString);
                },
            }
        } else if e.key == accent_key {
            match &e.value {
                SettingValue::Text(s) => {
                    accent_color = Some(s.clone());
                },
                SettingValue::Other => {
                    accent_color = None;
                },
            }
        }
        i = i + 1;
    }
    proof {
        assert(entries@.subrange(0, i as int) =~= entries@);
    }
    Ok(Settings { title, description, accent_color, url: url.to_owned() })
}

/// Once reading a prefix of the entries fails, reading any longer prefix
/// fails with the same error.
proof fn lemma_error_persists(entries: Seq<SettingEntry>, n: int)
    requires
        0 <= n <= entries.len(),
        read_entries(entries.subrange(0, n)) is Err,
    ensures
        read_entries(entries) == read_entries(entries.subrange(0, n)),
    decreases entries.len() - n,
{
    if n < entries.len() {
        assert(entries.subrange(0, n + 1).drop_last() =~= entries.subrange(0, n));
        lemma_error_persists(entries, n + 1);
    } else {
        assert(entries.subrange(0, n) =~= entries);
    }
}

/// A settings listing with no `accent_color` entry names no accent color,
/// so emails fall back to the default color; it is no error either.
pub proof fn lemma_missing_accent_color_defaults(entries: Seq<SettingEntry>)
    requires
        forall|i: int| 0 <= i < entries.len() ==> (#[trigger] entries[i]).key@ != "accent_color"@,
    ensures
        read_entries(entries) matches Ok(f) ==> f.2 is None,
    decreases entries.len(),
{
    if entries.len() > 0 {
        let rest = entries.drop_last();
        assert forall|i: int| 0 <= i < rest.len() implies (#[trigger] rest[i]).key@ != "accent_color"@ by {
            assert(rest[i] == entries[i]);
        }
        lemma_missing_accent_color_defaults(rest);
        assert(entries.last() == entries[entries.len() - 1]);
    }
}

impl Settings {
    /// The site's accent color, or the default color where it names none.
    pub fn accent_color_or_default(&self) -> (r: String)
        ensures
            r@ == match self.accent_color {
                Some(c) => c@,
                None => DEFAULT_ACCENT_COLOR@,
            },
    {
        match &self.accent_color {
            Some(c) => c.clone(),
            None => DEFAULT_ACCENT_COLOR.to_owned(),
        }
    }
}

} // verus!
