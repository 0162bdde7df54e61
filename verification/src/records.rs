//! The records the watcher produces.
//!
//! A record is an immutable tagged value created once per successful
//! notification cycle and consumed by the external sink. It is `Html` exactly
//! when the chosen conversion target was the HTML type; every other text
//! target yields `UnicodeText`.

use vstd::prelude::*;

verus! {

/// Textual clipboard content, together with the owner's window title (best
/// effort) and the second-resolution timestamp of its creation.
///
/// The `url` field of an `Html` record exists for parity with platforms whose
/// owners report the source document; on this platform it is always absent.
#[derive(Debug)]
pub enum ClipboardData {
    Html {
        content: String,
        owner: Option<String>,
        url: Option<String>,
        created_at: u64,
    },
    UnicodeText {
        content: String,
        owner: Option<String>,
        created_at: u64,
    },
}

impl ClipboardData {
    /// The textual content carried by the record, whichever variant holds it.
    pub fn get_content(&self) -> (r: String)
        ensures
            r@ == self.spec_content(),
    {
        match self {
            ClipboardData::Html { content, .. } => content.clone(),
            ClipboardData::UnicodeText { content, .. } => content.clone(),
        }
    }

    /// The content of either variant, as a sequence of characters.
    pub open spec fn spec_content(&self) -> Seq<char> {
        match self {
            ClipboardData::Html { content, .. } => content@,
            ClipboardData::UnicodeText { content, .. } => content@,
        }
    }

    /// The owner title of either variant.
    pub open spec fn spec_owner(&self) -> Option<Seq<char>> {
        match self {
            ClipboardData::Html { owner, .. } => owner.deep_view(),
            ClipboardData::UnicodeText { owner, .. } => owner.deep_view(),
        }
    }

    /// The creation timestamp of either variant.
    pub open spec fn spec_created_at(&self) -> u64 {
        match self {
            ClipboardData::Html { created_at, .. } => *created_at,
            ClipboardData::UnicodeText { created_at, .. } => *created_at,
        }
    }

    /// Builds an `Html` record from already-gathered parts.
    pub fn html(content: String, owner: Option<String>, url: Option<String>, created_at: u64) -> (r: ClipboardData)
        ensures
            r == (ClipboardData::Html { content, owner, url, created_at }),
    {
        ClipboardData::Html { content, owner, url, created_at }
    }

    /// Builds a `UnicodeText` record from already-gathered parts.
    pub fn unicode_text(content: String, owner: Option<String>, created_at: u64) -> (r: ClipboardData)
        ensures
            r == (ClipboardData::UnicodeText { content, owner, created_at }),
    {
        ClipboardData::UnicodeText { content, owner, created_at }
    }

    /// Builds a record of the kind the chosen target calls for, stamped `now`:
    /// `Html` exactly when the chosen target was the HTML type, `UnicodeText`
    /// otherwise, with no source URL on this platform.
    pub fn for_target(html: bool, content: String, owner: Option<String>, now: u64) -> (r: ClipboardData)
        ensures
            html ==> r == (ClipboardData::Html {
                content,
                owner,
                url: None::<String>,
                created_at: now,
            }),
            !html ==> r == (ClipboardData::UnicodeText { content, owner, created_at: now }),
    {
        if html {
            ClipboardData::Html { content, owner, url: None, created_at: now }
        } else {
            ClipboardData::UnicodeText { content, owner, created_at: now }
        }
    }

    /// Builds a record from anything that converts into one, as the tuple
    /// `From` impls below do.
    pub fn new<A: Into<ClipboardData>>(args: A) -> (r: ClipboardData)
        ensures
            call_ensures(A::into, (args,), r),
    {
        args.into()
    }
}

impl From<(String, Option<String>, Option<String>)> for ClipboardData {
    /// An `(content, owner, url)` triple becomes an `Html` record stamped with
    /// the current time.
    fn from(args: (String, Option<String>, Option<String>)) -> (r: ClipboardData)
        ensures
            r matches ClipboardData::Html { content, owner, url, created_at: _ }
                && content == args.0 && owner == args.1 && url == args.2,
    {
        let (content, owner, url) = args;
        ClipboardData::Html { content, owner, url, created_at: get_created_timestamp() }
    }
}

impl vstd::std_specs::convert::FromSpecImpl<(String, Option<String>, Option<String>)> for ClipboardData {
    /// The timestamp comes from the clock, so the result is not a function of
    /// the arguments alone and no exact spec can be honest here; the `ensures`
    /// on `from` pins every field but the timestamp.
    open spec fn obeys_from_spec() -> bool {
        false
    }

    open spec fn from_spec(args: (String, Option<String>, Option<String>)) -> ClipboardData {
        ClipboardData::Html { content: args.0, owner: args.1, url: args.2, created_at: 0 }
    }
}

impl From<(String, Option<String>)> for ClipboardData {
    /// An `(content, owner)` pair becomes a `UnicodeText` record stamped with
    /// the current time.
    fn from(args: (String, Option<String>)) -> (r: ClipboardData)
        ensures
            r matches ClipboardData::UnicodeText { content, owner, created_at: _ }
                && content == args.0 && owner == args.1,
    {
        let (content, owner) = args;
        ClipboardData::UnicodeText { content, owner, created_at: get_created_timestamp() }
    }
}

impl vstd::std_specs::convert::FromSpecImpl<(String, Option<String>)> for ClipboardData {
    /// As above: the timestamp makes the result depend on the clock.
    open spec fn obeys_from_spec() -> bool {
        false
    }

    open spec fn from_spec(args: (String, Option<String>)) -> ClipboardData {
        ClipboardData::UnicodeText { content: args.0, owner: args.1, created_at: 0 }
    }
}

/// The number of whole seconds since the Unix epoch, read from the system
/// clock, or zero on a clock that precedes the epoch.
///
/// Relies on `std::time::SystemTime::now`; nothing can be promised of a
/// clock reading, so no caller learns the value except by looking at it.
#[verifier::external_body]
pub fn get_created_timestamp() -> u64 {
    std::time::SystemTime::now()
        .duration_since(std::time::UNIX_EPOCH)
        .map(|d| d.as_secs())
        .unwrap_or(0)
}

} // verus!
