//! The registry: which formats are switched on, in which order they are
//! tried, and how many body bytes each may read.

use vstd::prelude::*;
use crate::format::{lemma_one_format_per_type, Format};
use crate::media::{ContentType, MediaType};

verus! {

/// Why a registry could not be built.
#[derive(Clone, Copy, Debug, PartialEq, Eq, Structural)]
pub enum ConfigError {
    /// Neither format was switched on.
    NoFormatEnabled,
}

impl ConfigError {
    /// What to tell whoever configured the build.
    pub open spec fn text(self) -> Seq<char> {
        "No features are enabled, please enable at least one of \"json\", \"msgpack\""@
    }

    /// What to tell whoever configured the build.
    pub fn message(self) -> (message: &'static str)
        ensures
            message@ == self.text(),
    {
        "No features are enabled, please enable at least one of \"json\", \"msgpack\""
    }
}

/// The set of enabled formats with their decode limits. A registry always
/// has at least one format enabled; the formats are tried in a fixed order,
/// JSON first.
#[derive(Clone, Copy, Debug, PartialEq, Eq)]
pub struct Registry {
    json: bool,
    msgpack: bool,
    json_limit: u64,
    msgpack_limit: u64,
}

impl Registry {
    #[verifier::type_invariant]
    spec fn some_format_enabled(self) -> bool {
        self.json || self.msgpack
    }

    /// Whether `format` is switched on.
    pub closed spec fn enabled(self, format: Format) -> bool {
        match format {
            Format::Json => self.json,
            Format::MessagePack => self.msgpack,
        }
    }

    /// The most body bytes that are read when decoding `format`.
    pub closed spec fn cap(self, format: Format) -> u64 {
        match format {
            Format::Json => self.json_limit,
            Format::MessagePack => self.msgpack_limit,
        }
    }

    /// What every registry built by this library satisfies.
    pub open spec fn wf(self) -> bool {
        self.enabled(Format::Json) || self.enabled(Format::MessagePack)
    }

    /// The enabled formats in the order in which they are tried.
    pub open spec fn formats(self) -> Seq<Format> {
        let json = if self.enabled(Format::Json) {
            seq![Format::Json]
        } else {
            Seq::empty()
        };
        let msgpack = if self.enabled(Format::MessagePack) {
            seq![Format::MessagePack]
        } else {
            Seq::empty()
        };
        json + msgpack
    }

    /// The format that claims `media`: the first enabled format, in the
    /// registry's order, that accepts it.
    pub open spec fn claimant(self, media: MediaType) -> Option<Format> {
        if self.enabled(Format::Json) && Format::Json.accepts(media) {
            Some(Format::Json)
        } else if self.enabled(Format::MessagePack) && Format::MessagePack.accepts(media) {
            Some(Format::MessagePack)
        } else {
            None
        }
    }

    /// A registry with the given formats switched on, each with its default
    /// limit. With neither switched on there is no registry.
    pub fn new(json: bool, msgpack: bool) -> (built: Result<Registry, ConfigError>)
        ensures
            built is Err <==> !json && !msgpack,
            built matches Err(e) ==> e == ConfigError::NoFormatEnabled,
            built matches Ok(registry) ==> {
                &&& registry.wf()
                &&& registry.enabled(Format::Json) == json
                &&& registry.enabled(Format::MessagePack) == msgpack
                &&& forall|format: Format| registry.cap(format) == format.default_cap()
            },
    {
        if !json && !msgpack {
            return Err(ConfigError::NoFormatEnabled);
        }
        Ok(
            Registry {
                json,
                msgpack,
                json_limit: Format::Json.default_limit(),
                msgpack_limit: Format::MessagePack.default_limit(),
            },
        )
    }

    /// The same registry, but reading at most `limit` body bytes when
    /// decoding `format`.
    pub fn with_limit(self, format: Format, limit: u64) -> (changed: Registry)
        ensures
            changed.wf(),
            changed.cap(format) == limit,
            forall|other: Format| other != format ==> changed.cap(other) == self.cap(other),
            forall|any: Format| changed.enabled(any) == self.enabled(any),
    {
        proof {
            use_type_invariant(&self);
        }
        match format {
            Format::Json => Registry { json_limit: limit, ..self },
            Format::MessagePack => Registry { msgpack_limit: limit, ..self },
        }
    }

    /// Whether `format` is switched on.
    pub fn is_enabled(&self, format: Format) -> (yes: bool)
        ensures
            yes == self.enabled(format),
    {
        match format {
            Format::Json => self.json,
            Format::MessagePack => self.msgpack,
        }
    }

    /// The most body bytes that are read when decoding `format`.
    pub fn limit(&self, format: Format) -> (limit: u64)
        ensures
            limit == self.cap(format),
    {
        match format {
            Format::Json => self.json_limit,
            Format::MessagePack => self.msgpack_limit,
        }
    }

    /// The enabled formats in the order in which they are tried; never empty.
    pub fn enabled_formats(&self) -> (formats: Vec<Format>)
        ensures
            formats@ == self.formats(),
            formats@.len() >= 1,
    {
        proof {
            use_type_invariant(self);
        }
        let mut formats: Vec<Format> = Vec::new();
        if self.json {
            formats.push(Format::Json);
        }
        if self.msgpack {
            formats.push(Format::MessagePack);
        }
        assert(formats@ =~= self.formats());
        formats
    }

    /// The format that claims `content_type`, if any: the first enabled
    /// format, JSON before MessagePack, that accepts it.
    pub fn claim(&self, content_type: &ContentType) -> (format: Option<Format>)
        ensures
            format == self.claimant(content_type@),
    {
        if self.json && Format::Json.matches(content_type) {
            Some(Format::Json)
        } else if self.msgpack && Format::MessagePack.matches(content_type) {
            Some(Format::MessagePack)
        } else {
            None
        }
    }
}

/// The claimant of a media type is enabled and accepts it, and where no
/// format is both there is no claimant.
pub proof fn lemma_claimant_is_enabled_and_accepts(registry: Registry, media: MediaType)
    ensures
        registry.claimant(media) matches Some(format) ==> registry.enabled(format)
            && format.accepts(media),
        registry.claimant(media) is None <==> forall|format: Format|
            !(registry.enabled(format) && #[trigger] format.accepts(media)),
{
    if registry.claimant(media) is None {
        assert forall|format: Format|
            !(registry.enabled(format) && #[trigger] format.accepts(media)) by {
            match format {
                Format::Json => {},
                Format::MessagePack => {},
            }
        }
    }
}

/// The formats are tried in the registry's order and the first match wins:
/// the claimant of a media type stands in `formats()` at some place, and no
/// format at an earlier place accepts the type.
pub proof fn lemma_claimant_is_first_in_order(registry: Registry, media: MediaType)
    ensures
        registry.claimant(media) matches Some(format) ==> exists|at: int|
            0 <= at < registry.formats().len() && #[trigger] registry.formats()[at] == format
                && forall|before: int|
                0 <= before < at ==> !(#[trigger] registry.formats()[before]).accepts(media),
        registry.claimant(media) is None ==> forall|at: int|
            0 <= at < registry.formats().len() ==> !(#[trigger] registry.formats()[at]).accepts(
                media,
            ),
{
    let formats = registry.formats();
    match registry.claimant(media) {
        Some(Format::Json) => {
            assert(formats[0] == Format::Json);
        },
        Some(Format::MessagePack) => {
            if registry.enabled(Format::Json) {
                assert(formats[1] == Format::MessagePack);
                assert(formats[0] == Format::Json);
            } else {
                assert(formats[0] == Format::MessagePack);
            }
        },
        None => {
            assert forall|at: int| 0 <= at < formats.len() implies !(#[trigger] formats[at]).accepts(
                media,
            ) by {
                if registry.enabled(Format::Json) {
                    assert(formats[0] == Format::Json);
                    if registry.enabled(Format::MessagePack) {
                        assert(formats[1] == Format::MessagePack);
                    }
                } else if registry.enabled(Format::MessagePack) {
                    assert(formats[0] == Format::MessagePack);
                }
            }
        },
    }
}

/// An enabled format claims every media type that it accepts.
pub proof fn lemma_enabled_format_claims_its_types(
    registry: Registry,
    format: Format,
    media: MediaType,
)
    requires
        registry.enabled(format),
        format.accepts(media),
    ensures
        registry.claimant(media) == Some(format),
{
    lemma_claimant_is_enabled_and_accepts(registry, media);
    lemma_one_format_per_type(registry.claimant(media).unwrap(), format, media);
}

} // verus!
