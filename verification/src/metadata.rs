//! The metadata record and its mathematical view.

use vstd::prelude::*;

verus! {

/// The error taxonomy of validation.  Validation stops at the first
/// failing check, so a caller sees exactly one of these per call.
#[derive(Clone, Copy, Debug, PartialEq, Eq, Structural)]
pub enum ValidationError {
    InvalidName,
    InvalidUrl,
    InvalidFeeBasisPoints,
    InvalidSymbol,
    InvalidCreatorShares,
    InvalidCreatorAddress,
    InvalidCategory,
}

/// One creator of the asset: an address and a percentage-like share.
#[derive(Clone, Debug, PartialEq, Eq)]
pub struct Creator {
    pub address: String,
    pub share: u16,
}

/// A free-form trait attribute; no validation is applied to it.
#[derive(Clone, Debug, PartialEq, Eq)]
pub struct Attribute {
    pub trait_type: String,
    pub value: String,
}

/// A file reference; no validation is applied to it.
#[derive(Clone, Debug, PartialEq, Eq)]
pub struct FileAttr {
    pub uri: String,
    pub file_type: String,
}

/// The `properties` object of a record.
#[derive(Clone, Debug, PartialEq, Eq)]
pub struct Property {
    pub files: Vec<FileAttr>,
    pub creators: Option<Vec<Creator>>,
    pub category: Option<String>,
}

/// The top-level metadata record.
#[derive(Clone, Debug, PartialEq, Eq)]
pub struct Metadata {
    pub name: String,
    pub symbol: Option<String>,
    pub description: String,
    pub seller_fee_basis_points: Option<u16>,
    pub image: String,
    pub animation_url: Option<String>,
    pub external_url: Option<String>,
    pub attributes: Vec<Attribute>,
    pub properties: Property,
}

/// Mathematical view of a [`Creator`].
#[verifier::ext_equal]
pub struct CreatorView {
    pub address: Seq<char>,
    pub share: u16,
}

/// Mathematical view of an [`Attribute`].
#[verifier::ext_equal]
pub struct AttributeView {
    pub trait_type: Seq<char>,
    pub value: Seq<char>,
}

/// Mathematical view of a [`FileAttr`].
#[verifier::ext_equal]
pub struct FileAttrView {
    pub uri: Seq<char>,
    pub file_type: Seq<char>,
}

/// Mathematical view of a [`Property`].
#[verifier::ext_equal]
pub struct PropertyView {
    pub files: Seq<FileAttrView>,
    pub creators: Option<Seq<CreatorView>>,
    pub category: Option<Seq<char>>,
}

/// Mathematical view of a [`Metadata`] record: every string as a
/// sequence of characters, every list as a sequence.
#[verifier::ext_equal]
pub struct MetadataView {
    pub name: Seq<char>,
    pub symbol: Option<Seq<char>>,
    pub description: Seq<char>,
    pub seller_fee_basis_points: Option<u16>,
    pub image: Seq<char>,
    pub animation_url: Option<Seq<char>>,
    pub external_url: Option<Seq<char>>,
    pub attributes: Seq<AttributeView>,
    pub properties: PropertyView,
}

impl Default for Creator {
    /// The default creator: empty address, zero share.
    fn default() -> (d: Creator)
        ensures
            d@ == (CreatorView { address: Seq::<char>::empty(), share: 0u16 }),
    {
        Creator { address: String::new(), share: 0 }
    }
}

impl Default for Attribute {
    /// The default attribute: empty trait type and value.
    fn default() -> (d: Attribute)
        ensures
            d@ == (AttributeView { trait_type: Seq::<char>::empty(), value: Seq::<char>::empty() }),
    {
        Attribute { trait_type: String::new(), value: String::new() }
    }
}

impl Default for FileAttr {
    /// The default file reference: empty URI and type.
    fn default() -> (d: FileAttr)
        ensures
            d@ == (FileAttrView { uri: Seq::<char>::empty(), file_type: Seq::<char>::empty() }),
    {
        FileAttr { uri: String::new(), file_type: String::new() }
    }
}

impl Default for Property {
    /// The default properties: no files, no creators, no category.
    fn default() -> (d: Property)
        ensures
            d@ == (PropertyView { files: Seq::<FileAttrView>::empty(), creators: None, category: None }),
    {
        Property { files: Vec::new(), creators: None, category: None }
    }
}

impl Default for Metadata {
    /// The default record: every string empty, every optional field
    /// absent, no attributes.
    fn default() -> (d: Metadata)
        ensures
            d@ == (MetadataView {
                name: Seq::<char>::empty(),
                symbol: None,
                description: Seq::<char>::empty(),
                seller_fee_basis_points: None,
                image: Seq::<char>::empty(),
                animation_url: None,
                external_url: None,
                attributes: Seq::<AttributeView>::empty(),
                properties: PropertyView {
                    files: Seq::<FileAttrView>::empty(),
                    creators: None,
                    category: None,
                },
            }),
    {
        Metadata {
            name: String::new(),
            symbol: None,
            description: String::new(),
            seller_fee_basis_points: None,
            image: String::new(),
            animation_url: None,
            external_url: None,
            attributes: Vec::new(),
            properties: Property::default(),
        }
    }
}

impl View for Creator {
    type V = CreatorView;

    open spec fn view(&self) -> CreatorView {
        CreatorView { address: self.address@, share: self.share }
    }
}

impl View for Attribute {
    type V = AttributeView;

    open spec fn view(&self) -> AttributeView {
        AttributeView { trait_type: self.trait_type@, value: self.value@ }
    }
}

impl View for FileAttr {
    type V = FileAttrView;

    open spec fn view(&self) -> FileAttrView {
        FileAttrView { uri: self.uri@, file_type: self.file_type@ }
    }
}

/// The view of an optional string.
pub open spec fn opt_string_view(s: Option<String>) -> Option<Seq<char>> {
    match s {
        Some(s) => Some(s@),
        None => None,
    }
}

/// The views of a list of creators.
pub open spec fn creators_view(cs: Vec<Creator>) -> Seq<CreatorView> {
    cs@.map_values(|c: Creator| c@)
}

impl View for Property {
    type V = PropertyView;

    open spec fn view(&self) -> PropertyView {
        PropertyView {
            files: self.files@.map_values(|f: FileAttr| f@),
            creators: match self.creators {
                Some(cs) => Some(creators_view(cs)),
                None => None,
            },
            category: opt_string_view(self.category),
        }
    }
}

impl View for Metadata {
    type V = MetadataView;

    open spec fn view(&self) -> MetadataView {
        MetadataView {
            name: self.name@,
            symbol: opt_string_view(self.symbol),
            description: self.description@,
            seller_fee_basis_points: self.seller_fee_basis_points,
            image: self.image@,
            animation_url: opt_string_view(self.animation_url),
            external_url: opt_string_view(self.external_url),
            attributes: self.attributes@.map_values(|a: Attribute| a@),
            properties: self.properties@,
        }
    }
}

} // verus!
