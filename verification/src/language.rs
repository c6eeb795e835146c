//! Coarse language labels, chosen by file extension.

use crate::text::{
    chars_of, find_last, last_index_of, lemma_last_index_of, lemma_last_index_of_unique, tail_is,
};
use vstd::prelude::*;
use vstd::string::*;

verus! {

/// The languages that have a label and an icon of their own.
#[derive(Clone, Copy, Debug, PartialEq, Eq, Structural)]
pub enum Language {
    Rust,
    Toml,
    Nix,
    Json,
}

/// Why a name could not be classified.
#[derive(Clone, Copy, Debug, PartialEq, Eq, Structural)]
pub enum LanguageError {
    /// The name holds no `.` at all.
    NoExtension,
    /// What follows the last `.` is not in the table.
    UnknownExtension,
}

/// What follows the last `.` of `name`; nothing where `name` has no `.`.
pub open spec fn extension_of(name: Seq<char>) -> Option<Seq<char>> {
    match last_index_of(name, '.') {
        Some(i) => Some(name.skip(i + 1)),
        None => None,
    }
}

/// The extension table. Extensions are compared as written: case matters.
pub open spec fn language_of_extension(ext: Seq<char>) -> Option<Language> {
    if ext == "rs"@ {
        Some(Language::Rust)
    } else if ext == "toml"@ {
        Some(Language::Toml)
    } else if ext == "nix"@ {
        Some(Language::Nix)
    } else if ext == "json"@ || ext == "jsonc"@ {
        Some(Language::Json)
    } else {
        None
    }
}

/// The language of a file name or path, by its extension.
pub open spec fn classify(name: Seq<char>) -> Result<Language, LanguageError> {
    match extension_of(name) {
        None => Err(LanguageError::NoExtension),
        Some(ext) => match language_of_extension(ext) {
            Some(language) => Ok(language),
            None => Err(LanguageError::UnknownExtension),
        },
    }
}

/// A name has an extension exactly where it holds a `.`; the extension
/// holds none, and the name ends in a `.` followed by it.
pub proof fn lemma_extension(name: Seq<char>)
    ensures
        extension_of(name) is Some <==> name.contains('.'),
        extension_of(name) matches Some(ext) ==> {
            &&& ext.len() < name.len()
            &&& name[name.len() - ext.len() - 1] == '.'
            &&& name.skip(name.len() - ext.len()) == ext
            &&& !ext.contains('.')
        },
{
    lemma_last_index_of(name, '.');
}

/// A name is classified by its extension alone: what stands before the
/// last `.` does not matter.
pub proof fn lemma_classified_by_extension(head: Seq<char>, ext: Seq<char>)
    requires
        !ext.contains('.'),
    ensures
        extension_of(head.push('.') + ext) == Some(ext),
        classify(head.push('.') + ext) == match language_of_extension(ext) {
            Some(language) => Ok::<Language, LanguageError>(language),
            None => Err(LanguageError::UnknownExtension),
        },
{
    let name = head.push('.') + ext;
    assert forall|j: int| head.len() < j < name.len() implies name[j] != '.' by {
        assert(name[j] == ext[j - head.len() - 1]);
    }
    lemma_last_index_of_unique(name, '.', head.len() as int);
    assert(name.skip(head.len() as int + 1) =~= ext);
}

/// The lower-case form of an ASCII capital; any other character unchanged.
pub open spec fn ascii_lower(c: char) -> char {
    if 'A' <= c && c <= 'Z' {
        ((c as u8) + 32) as char
    } else {
        c
    }
}

impl Language {
    /// The label shown for the language.
    pub open spec fn label(self) -> Seq<char> {
        match self {
            Language::Rust => "Rust"@,
            Language::Toml => "TOML"@,
            Language::Nix => "Nix"@,
            Language::Json => "JSON"@,
        }
    }

    /// The identifier of the language's icon.
    pub open spec fn icon(self) -> Seq<char> {
        match self {
            Language::Rust => "rust"@,
            Language::Toml => "toml"@,
            Language::Nix => "nix"@,
            Language::Json => "json"@,
        }
    }

    /// Classifies `s` by what follows its last `.`.
    pub fn from_str(s: &str) -> (r: Result<Language, LanguageError>)
        ensures
            r == classify(s@),
    {
        let chars = chars_of(s);
        match find_last(&chars, '.') {
            None => Err(LanguageError::NoExtension),
            Some(dot) => {
                let from: usize = dot + 1;
                if tail_is(&chars, from, "rs") {
                    Ok(Language::Rust)
                } else if tail_is(&chars, from, "toml") {
                    Ok(Language::Toml)
                } else if tail_is(&chars, from, "nix") {
                    Ok(Language::Nix)
                } else if tail_is(&chars, from, "json") || tail_is(&chars, from, "jsonc") {
                    Ok(Language::Json)
                } else {
                    Err(LanguageError::UnknownExtension)
                }
            },
        }
    }

    /// The label as an owned string.
    pub fn to_string(&self) -> (r: String)
        ensures
            r@ == self.label(),
    {
        match self {
            Language::Rust => "Rust".to_owned(),
            Language::Toml => "TOML".to_owned(),
            Language::Nix => "Nix".to_owned(),
            Language::Json => "JSON".to_owned(),
        }
    }

    /// The icon identifier as an owned string.
    pub fn icon_id(&self) -> (r: String)
        ensures
            r@ == self.icon(),
    {
        match self {
            Language::Rust => "rust".to_owned(),
            Language::Toml => "toml".to_owned(),
            Language::Nix => "nix".to_owned(),
            Language::Json => "json".to_owned(),
        }
    }

    /// Every icon identifier is its label with the ASCII capitals lowered.
    pub proof fn lemma_icon_is_lowercase_label(self)
        ensures
            self.icon() == self.label().map_values(|c: char| ascii_lower(c)),
    {
        reveal_strlit("Rust");
        reveal_strlit("rust");
        reveal_strlit("TOML");
        reveal_strlit("toml");
        reveal_strlit("Nix");
        reveal_strlit("nix");
        reveal_strlit("JSON");
        reveal_strlit("json");
    }
}

impl LanguageError {
    /// The error in words.
    pub open spec fn message(self) -> Seq<char> {
        match self {
            LanguageError::NoExtension => "string missing extension"@,
            LanguageError::UnknownExtension => "no known extensions matched string"@,
        }
    }

    /// The error in words, as an owned string.
    pub fn to_string(&self) -> (r: String)
        ensures
            r@ == self.message(),
    {
        match self {
            LanguageError::NoExtension => "string missing extension".to_owned(),
            LanguageError::UnknownExtension => "no known extensions matched string".to_owned(),
        }
    }
}

} // verus!
