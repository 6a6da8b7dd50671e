//! Kinds of filesystem entries, and the computing half of the hide action.

use crate::text::utf8_text;
use vstd::prelude::*;
use vstd::string::StringExecFns;
use vstd::utf8::{decode_utf8, encode_utf8, valid_utf8};

verus! {

/// The kind of a filesystem entry, as the type filter sees it.
#[derive(Clone, Copy, Debug, PartialEq, Eq, Structural)]
pub enum ObjectType {
    File,
    Folder,
    Symlink,
    Unknown,
}

/// What the metadata of an entry says about its kind. The three flags are read
/// from the entry itself, not from the target of a link.
#[derive(Clone, Copy, Debug, PartialEq, Eq, Structural)]
pub struct EntryFlags {
    pub is_file: bool,
    pub is_dir: bool,
    pub is_symlink: bool,
}

/// The kind that a set of flags stands for: a regular file first, then a
/// directory, then a symbolic link; everything else is `Unknown`.
pub open spec fn kind_of(flags: EntryFlags) -> ObjectType {
    if flags.is_file {
        ObjectType::File
    } else if flags.is_dir {
        ObjectType::Folder
    } else if flags.is_symlink {
        ObjectType::Symlink
    } else {
        ObjectType::Unknown
    }
}

/// Classifies an entry from the flags of its metadata.
pub fn object_type(flags: EntryFlags) -> (kind: ObjectType)
    ensures
        kind == kind_of(flags),
{
    if flags.is_file {
        ObjectType::File
    } else if flags.is_dir {
        ObjectType::Folder
    } else if flags.is_symlink {
        ObjectType::Symlink
    } else {
        ObjectType::Unknown
    }
}

/// Whether `object_type` is one of `types`.
pub fn matches_type(object_type: ObjectType, types: &[ObjectType]) -> (found: bool)
    ensures
        found == types@.contains(object_type),
{
    let mut i: usize = 0;
    while i < types.len()
        invariant
            i <= types.len(),
            forall|j: int| 0 <= j < i ==> types@[j] != object_type,
        decreases types.len() - i,
    {
        if types[i] == object_type {
            return true;
        }
        i += 1;
    }
    false
}

/// Why an entry was not hidden.
#[derive(Clone, Copy, Debug, PartialEq, Eq, Structural)]
pub enum HideError {
    /// The path has no final component to rename.
    NoFileName,
    /// The final component is not valid UTF-8.
    NameNotText,
    /// The path has no parent directory.
    NoParent,
    /// The filesystem refused the operation.
    Io,
}

/// What is to be done to hide an entry by its name.
#[derive(Clone, Debug, PartialEq, Eq)]
pub enum HidePlan {
    /// The name begins with a dot: there is nothing to do.
    AlreadyHidden,
    /// The entry is to be renamed, within its directory, to this name.
    Rename(String),
}

/// A hide plan as a mathematical value.
pub enum HideStep {
    AlreadyHidden,
    Rename(Seq<char>),
}

impl View for HidePlan {
    type V = HideStep;

    open spec fn view(&self) -> HideStep {
        match *self {
            HidePlan::AlreadyHidden => HideStep::AlreadyHidden,
            HidePlan::Rename(name) => HideStep::Rename(name@),
        }
    }
}

/// Whether a file name is that of a hidden entry: it begins with a dot.
pub open spec fn is_hidden_name(name: Seq<char>) -> bool {
    name.len() > 0 && name[0] == '.'
}

/// The name under which an entry is hidden: the name itself where it is hidden
/// already, else the name with a dot before it.
pub open spec fn hidden_name(name: Seq<char>) -> Seq<char> {
    if is_hidden_name(name) {
        name
    } else {
        seq!['.'] + name
    }
}

/// What hiding by name does to an entry, from the final component of its path
/// as bytes and from whether the path has a parent.
pub open spec fn hide_step(file_name: Option<Seq<u8>>, has_parent: bool) -> Result<
    HideStep,
    HideError,
> {
    match file_name {
        None => Err(HideError::NoFileName),
        Some(bytes) => if !valid_utf8(bytes) {
            Err(HideError::NameNotText)
        } else if is_hidden_name(decode_utf8(bytes)) {
            Ok(HideStep::AlreadyHidden)
        } else if !has_parent {
            Err(HideError::NoParent)
        } else {
            Ok(HideStep::Rename(hidden_name(decode_utf8(bytes))))
        },
    }
}

/// Plans the hiding of an entry by its name. `file_name` is the final component
/// of the path, if it has one; `has_parent` says whether the path has a parent
/// directory, in which the renamed entry is to stand.
pub fn plan_hide(file_name: Option<&[u8]>, has_parent: bool) -> (plan: Result<HidePlan, HideError>)
    ensures
        match plan {
            Ok(step) => hide_step(
                match file_name {
                    Some(bytes) => Some(bytes@),
                    None => None,
                },
                has_parent,
            ) == Ok::<HideStep, HideError>(step@),
            Err(error) => hide_step(
                match file_name {
                    Some(bytes) => Some(bytes@),
                    None => None,
                },
                has_parent,
            ) == Err::<HideStep, HideError>(error),
        },
{
    let bytes = match file_name {
        Some(bytes) => bytes,
        None => {
            return Err(HideError::NoFileName);
        },
    };
    let name = match utf8_text(bytes) {
        Some(name) => name,
        None => {
            return Err(HideError::NameNotText);
        },
    };
    if !name.is_empty() && name.get_char(0) == '.' {
        Ok(HidePlan::AlreadyHidden)
    } else if !has_parent {
        Err(HideError::NoParent)
    } else {
        proof {
            reveal_strlit(".");
            assert("."@ == seq!['.']);
        }
        Ok(HidePlan::Rename(String::from_str(".").concat(name)))
    }
}

/// The attribute bit that marks an entry as hidden where hiding goes by
/// attributes.
pub const FILE_ATTRIBUTE_HIDDEN: u32 = 0x2;

/// The attributes of an entry once it is hidden: the same, with the hidden bit
/// set.
pub open spec fn hidden_attributes(attributes: u32) -> u32 {
    attributes | FILE_ATTRIBUTE_HIDDEN
}

/// Plans the hiding of an entry by its attributes: none where the hidden bit
/// is set already, else the attributes to set.
pub fn plan_hide_attributes(attributes: u32) -> (plan: Option<u32>)
    ensures
        plan == (if attributes & FILE_ATTRIBUTE_HIDDEN == FILE_ATTRIBUTE_HIDDEN {
            None
        } else {
            Some(hidden_attributes(attributes))
        }),
{
    if attributes & FILE_ATTRIBUTE_HIDDEN == FILE_ATTRIBUTE_HIDDEN {
        None
    } else {
        Some(attributes | FILE_ATTRIBUTE_HIDDEN)
    }
}

/// Hiding by name is idempotent: the hidden name is a hidden name, and hiding
/// it again leaves it as it is.
pub proof fn lemma_hidden_name_idempotent(name: Seq<char>)
    ensures
        is_hidden_name(hidden_name(name)),
        hidden_name(hidden_name(name)) == hidden_name(name),
{
}

/// Hiding an entry twice ends as hiding it once, and the second time is no
/// error: once an entry bears the name that a plan gave it, the next plan
/// finds it hidden already, whether or not its path has a parent.
pub proof fn lemma_hide_twice(file_name: Seq<u8>, new_name: Seq<char>, has_parent: bool)
    requires
        hide_step(Some(file_name), true) == Ok::<HideStep, HideError>(HideStep::Rename(new_name)),
    ensures
        hide_step(Some(encode_utf8(new_name)), has_parent) == Ok::<HideStep, HideError>(
            HideStep::AlreadyHidden,
        ),
{
    vstd::utf8::encode_utf8_valid_utf8(new_name);
    vstd::utf8::encode_utf8_decode_utf8(new_name);
}

/// A plan that finds an entry hidden finds it so again: nothing was renamed.
pub proof fn lemma_hidden_stays_hidden(file_name: Seq<u8>, has_parent: bool, again: bool)
    requires
        hide_step(Some(file_name), has_parent) == Ok::<HideStep, HideError>(
            HideStep::AlreadyHidden,
        ),
    ensures
        hide_step(Some(file_name), again) == Ok::<HideStep, HideError>(HideStep::AlreadyHidden),
{
}

/// Hiding by attributes is idempotent: once the hidden bit is set, the next
/// plan has nothing to set, and setting the bit again would change nothing.
pub proof fn lemma_hidden_attributes_idempotent(attributes: u32)
    ensures
        hidden_attributes(attributes) & FILE_ATTRIBUTE_HIDDEN == FILE_ATTRIBUTE_HIDDEN,
        hidden_attributes(hidden_attributes(attributes)) == hidden_attributes(attributes),
{
    assert((attributes | 0x2u32) & 0x2u32 == 0x2u32) by (bit_vector);
    assert((attributes | 0x2u32) | 0x2u32 == attributes | 0x2u32) by (bit_vector);
}

} // verus!
