//! An entry of a filesystem as a scan sees it, and the rules that say what
//! it is taken for.

use crate::classification::{
    ArchiveFileType, ConfigurationFileType, DatabaseFileType, DirectoryClassification,
    DocumentFileType, EntryClassification, FileClassification, SecretFileType,
    SpreadsheetFileType, VersionControlSystem,
};
use crate::sniff::{delimiter_of, sniff};
use crate::text::{chars_of, extension, extension_of, lower, same_text, to_lowercase};
use vstd::prelude::*;

verus! {

/// A file or a directory met during a scan.
#[derive(Clone, Debug)]
pub struct Entry {
    /// The whole path, as it is printed.
    pub path: String,
    /// The last component of the path, if it has one; what is not Unicode in
    /// it is replaced by U+FFFD.
    pub name: Option<String>,
    /// Whether that component is Unicode throughout, so that nothing in
    /// `name` is a replacement.
    pub name_is_unicode: bool,
    /// Whether the entry is a directory.
    pub is_dir: bool,
}

/// The last component of an entry's path as characters.
pub open spec fn name_of(entry: Entry) -> Option<Seq<char>> {
    match entry.name {
        Some(n) => Some(n@),
        None => None,
    }
}

/// The last component of an entry's path as the blacklist compares it:
/// a component that is not Unicode throughout is compared with nothing.
pub open spec fn compared_name(entry: Entry) -> Option<Seq<char>> {
    if entry.name_is_unicode {
        name_of(entry)
    } else {
        None
    }
}

/// What a directory with the given name is taken for.
pub open spec fn dir_class(name: Option<Seq<char>>) -> DirectoryClassification {
    match name {
        Some(n) => if lower(n) == ".git"@ {
            DirectoryClassification::VersionControl(VersionControlSystem::Git)
        } else if lower(n) == ".svn"@ {
            DirectoryClassification::VersionControl(VersionControlSystem::Svn)
        } else {
            DirectoryClassification::Regular
        },
        None => DirectoryClassification::Regular,
    }
}

/// What a file with the lowercase extension `ext` and the content `content`
/// is taken for.
pub open spec fn extension_class(ext: Seq<char>, content: Seq<char>) -> FileClassification {
    if ext == "xls"@ || ext == "xlsx"@ {
        FileClassification::Spreadsheet(SpreadsheetFileType::Excel)
    } else if ext == "csv"@ {
        FileClassification::Spreadsheet(SpreadsheetFileType::Csv(delimiter_of(content)))
    } else if ext == "txt"@ || ext == "log"@ {
        FileClassification::Document(DocumentFileType::Text)
    } else if ext == "pdf"@ {
        FileClassification::Document(DocumentFileType::Pdf)
    } else if ext == "rtf"@ || ext == "odt"@ || ext == "xps"@ || ext == "wps"@ || ext == "dotx"@
        || ext == "dotm"@ || ext == "docx"@ || ext == "docm"@ || ext == "doc"@ {
        FileClassification::Document(DocumentFileType::Word)
    } else if ext == "db"@ || ext == "dump"@ {
        FileClassification::Database(DatabaseFileType::Db)
    } else if ext == "sqlite"@ || ext == "sqlite3"@ {
        FileClassification::Database(DatabaseFileType::Sqlite)
    } else if ext == "sql"@ || ext == "mysql"@ || ext == "pgsql"@ {
        FileClassification::Database(DatabaseFileType::Sql)
    } else if ext == "pdb"@ {
        FileClassification::Database(DatabaseFileType::Pdb)
    } else if ext == "yaml"@ {
        FileClassification::Configuration(ConfigurationFileType::Yaml)
    } else if ext == "json"@ {
        FileClassification::Configuration(ConfigurationFileType::Json)
    } else if ext == "ini"@ {
        FileClassification::Configuration(ConfigurationFileType::Ini)
    } else if ext == "zip"@ {
        FileClassification::Archive(ArchiveFileType::Zip)
    } else if ext == "rar"@ {
        FileClassification::Archive(ArchiveFileType::Rar)
    } else {
        FileClassification::Regular
    }
}

/// What a file with the given name and content is taken for: a secret where
/// the whole name is `.env` in any case, else what its extension says.
pub open spec fn file_class(name: Option<Seq<char>>, content: Seq<char>) -> FileClassification {
    match name {
        Some(n) => if lower(n) == ".env"@ {
            FileClassification::Secret(SecretFileType::Env)
        } else {
            match extension_of(n) {
                Some(e) => extension_class(lower(e), content),
                None => FileClassification::Regular,
            }
        },
        None => FileClassification::Regular,
    }
}

/// Whether the classification of a file with the given name looks at its
/// content: only where its extension marks delimited text.
pub open spec fn reads_content(name: Option<Seq<char>>) -> bool {
    match name {
        Some(n) => lower(n) != ".env"@ && match extension_of(n) {
            Some(e) => lower(e) == "csv"@,
            None => false,
        },
        None => false,
    }
}

/// What an entry is taken for.
pub open spec fn entry_class(entry: Entry, content: Seq<char>) -> EntryClassification {
    if entry.is_dir {
        EntryClassification::Dir(dir_class(name_of(entry)))
    } else {
        EntryClassification::File(file_class(name_of(entry), content))
    }
}

/// What a file with the lowercase extension `ext` is taken for. `content`
/// is looked at only for delimited text.
pub fn classify_extension(ext: &Vec<char>, content: &str) -> (class: FileClassification)
    ensures
        class == extension_class(ext@, content@),
{
    if same_text(ext, "xls") || same_text(ext, "xlsx") {
        FileClassification::Spreadsheet(SpreadsheetFileType::Excel)
    } else if same_text(ext, "csv") {
        FileClassification::Spreadsheet(SpreadsheetFileType::Csv(sniff(content)))
    } else if same_text(ext, "txt") || same_text(ext, "log") {
        FileClassification::Document(DocumentFileType::Text)
    } else if same_text(ext, "pdf") {
        FileClassification::Document(DocumentFileType::Pdf)
    } else if same_text(ext, "rtf") || same_text(ext, "odt") || same_text(ext, "xps")
        || same_text(ext, "wps") || same_text(ext, "dotx") || same_text(ext, "dotm")
        || same_text(ext, "docx") || same_text(ext, "docm") || same_text(ext, "doc") {
        FileClassification::Document(DocumentFileType::Word)
    } else if same_text(ext, "db") || same_text(ext, "dump") {
        FileClassification::Database(DatabaseFileType::Db)
    } else if same_text(ext, "sqlite") || same_text(ext, "sqlite3") {
        FileClassification::Database(DatabaseFileType::Sqlite)
    } else if same_text(ext, "sql") || same_text(ext, "mysql") || same_text(ext, "pgsql") {
        FileClassification::Database(DatabaseFileType::Sql)
    } else if same_text(ext, "pdb") {
        FileClassification::Database(DatabaseFileType::Pdb)
    } else if same_text(ext, "yaml") {
        FileClassification::Configuration(ConfigurationFileType::Yaml)
    } else if same_text(ext, "json") {
        FileClassification::Configuration(ConfigurationFileType::Json)
    } else if same_text(ext, "ini") {
        FileClassification::Configuration(ConfigurationFileType::Ini)
    } else if same_text(ext, "zip") {
        FileClassification::Archive(ArchiveFileType::Zip)
    } else if same_text(ext, "rar") {
        FileClassification::Archive(ArchiveFileType::Rar)
    } else {
        FileClassification::Regular
    }
}

impl Entry {
    /// What the entry is taken for as a directory: a version-control
    /// directory where its name says so in any case, else a regular one.
    pub fn classify_dir(&self) -> (class: DirectoryClassification)
        ensures
            class == dir_class(name_of(*self)),
    {
        match &self.name {
            Some(n) => {
                let lowered = to_lowercase(&chars_of(n.as_str()));
                if same_text(&lowered, ".git") {
                    DirectoryClassification::VersionControl(VersionControlSystem::Git)
                } else if same_text(&lowered, ".svn") {
                    DirectoryClassification::VersionControl(VersionControlSystem::Svn)
                } else {
                    DirectoryClassification::Regular
                }
            },
            None => DirectoryClassification::Regular,
        }
    }

    /// What the entry is taken for as a file. `content` is the file's text,
    /// empty where it could not be read; it is looked at only where
    /// `needs_content` says so.
    pub fn classify_file(&self, content: &str) -> (class: FileClassification)
        ensures
            class == file_class(name_of(*self), content@),
    {
        match &self.name {
            Some(n) => {
                let name = chars_of(n.as_str());
                let lowered = to_lowercase(&name);
                if same_text(&lowered, ".env") {
                    FileClassification::Secret(SecretFileType::Env)
                } else {
                    match extension(&name) {
                        Some(e) => classify_extension(&to_lowercase(&e), content),
                        None => FileClassification::Regular,
                    }
                }
            },
            None => FileClassification::Regular,
        }
    }

    /// Whether `classify` looks at the content of this entry.
    pub fn needs_content(&self) -> (needed: bool)
        ensures
            needed == (!self.is_dir && reads_content(name_of(*self))),
    {
        if self.is_dir {
            return false;
        }
        match &self.name {
            Some(n) => {
                let name = chars_of(n.as_str());
                let lowered = to_lowercase(&name);
                if same_text(&lowered, ".env") {
                    false
                } else {
                    match extension(&name) {
                        Some(e) => same_text(&to_lowercase(&e), "csv"),
                        None => false,
                    }
                }
            },
            None => false,
        }
    }

    /// What the entry is taken for. `content` is the file's text, empty
    /// where it could not be read or was not asked for.
    pub fn classify(&self, content: &str) -> (class: EntryClassification)
        ensures
            class == entry_class(*self, content@),
    {
        if self.is_dir {
            EntryClassification::Dir(self.classify_dir())
        } else {
            EntryClassification::File(self.classify_file(content))
        }
    }
}

} // verus!
