//! Which classifications a report shows, and the line it shows for each.

use crate::classification::{
    ArchiveFileType, ConfigurationFileType, DatabaseFileType, DirectoryClassification,
    DocumentFileType, EntryClassification, FileClassification, SecretFileType,
    SpreadsheetFileType, VersionControlSystem,
};
use crate::sniff::UNDETERMINED;
use vstd::prelude::*;
use vstd::string::StringExecFns;

verus! {

/// The label of a directory's classification; a regular one has none.
pub open spec fn dir_label_of(class: DirectoryClassification) -> Seq<char> {
    match class {
        DirectoryClassification::VersionControl(VersionControlSystem::Git) => "git"@,
        DirectoryClassification::VersionControl(VersionControlSystem::Svn) => "svn"@,
        DirectoryClassification::Regular => Seq::empty(),
    }
}

/// The label of a file's classification; a regular one has none.
pub open spec fn file_label_of(class: FileClassification) -> Seq<char> {
    match class {
        FileClassification::Secret(SecretFileType::Env) => "dotenv"@,
        FileClassification::Spreadsheet(SpreadsheetFileType::Excel) => "excel"@,
        FileClassification::Spreadsheet(SpreadsheetFileType::Csv(delimiter)) => ("csv('"@.push(
            delimiter,
        )) + "')"@,
        FileClassification::Document(DocumentFileType::Pdf) => "pdf"@,
        FileClassification::Document(DocumentFileType::Text) => "txt"@,
        FileClassification::Document(DocumentFileType::Word) => "word"@,
        FileClassification::Database(DatabaseFileType::Sqlite) => "sqlite"@,
        FileClassification::Database(DatabaseFileType::Sql) => "sql"@,
        FileClassification::Database(DatabaseFileType::Db) => "db"@,
        FileClassification::Database(DatabaseFileType::Pdb) => "pdb"@,
        FileClassification::Configuration(ConfigurationFileType::Yaml) => "yaml"@,
        FileClassification::Configuration(ConfigurationFileType::Json) => "json"@,
        FileClassification::Configuration(ConfigurationFileType::Ini) => "ini"@,
        FileClassification::Archive(ArchiveFileType::Zip) => "zip"@,
        FileClassification::Archive(ArchiveFileType::Rar) => "rar"@,
        FileClassification::Regular => Seq::empty(),
    }
}

/// The label of an entry's classification.
pub open spec fn label_of(class: EntryClassification) -> Seq<char> {
    match class {
        EntryClassification::File(c) => file_label_of(c),
        EntryClassification::Dir(c) => dir_label_of(c),
    }
}

/// Whether a report leaves a classification out: regular directories and
/// files, plain text, and delimited text whose delimiter is undetermined.
pub open spec fn suppressed(class: EntryClassification) -> bool {
    class == EntryClassification::Dir(DirectoryClassification::Regular)
        || class == EntryClassification::File(FileClassification::Regular)
        || class == EntryClassification::File(
        FileClassification::Document(DocumentFileType::Text),
    ) || class == EntryClassification::File(
        FileClassification::Spreadsheet(SpreadsheetFileType::Csv('\0')),
    )
}

/// The line of a report for an entry with the given path and classification.
pub open spec fn line_of(path: Seq<char>, class: EntryClassification) -> Seq<char> {
    path + " # "@ + label_of(class)
}

impl DirectoryClassification {
    /// The label under which the classification is reported.
    pub fn label(&self) -> (text: String)
        ensures
            text@ == dir_label_of(*self),
    {
        match self {
            DirectoryClassification::VersionControl(vcs) => match vcs {
                VersionControlSystem::Git => String::from_str("git"),
                VersionControlSystem::Svn => String::from_str("svn"),
            },
            DirectoryClassification::Regular => String::new(),
        }
    }
}

impl FileClassification {
    /// The label under which the classification is reported.
    pub fn label(&self) -> (text: String)
        ensures
            text@ == file_label_of(*self),
    {
        match self {
            FileClassification::Secret(ext) => match ext {
                SecretFileType::Env => String::from_str("dotenv"),
            },
            FileClassification::Spreadsheet(ext) => match ext {
                SpreadsheetFileType::Excel => String::from_str("excel"),
                SpreadsheetFileType::Csv(separator) => {
                    let mut text = String::from_str("csv('");
                    text.push(*separator);
                    text.append("')");
                    text
                },
            },
            FileClassification::Document(ext) => match ext {
                DocumentFileType::Pdf => String::from_str("pdf"),
                DocumentFileType::Text => String::from_str("txt"),
                DocumentFileType::Word => String::from_str("word"),
            },
            FileClassification::Database(ext) => match ext {
                DatabaseFileType::Sqlite => String::from_str("sqlite"),
                DatabaseFileType::Sql => String::from_str("sql"),
                DatabaseFileType::Db => String::from_str("db"),
                DatabaseFileType::Pdb => String::from_str("pdb"),
            },
            FileClassification::Configuration(ext) => match ext {
                ConfigurationFileType::Yaml => String::from_str("yaml"),
                ConfigurationFileType::Json => String::from_str("json"),
                ConfigurationFileType::Ini => String::from_str("ini"),
            },
            FileClassification::Archive(ext) => match ext {
                ArchiveFileType::Zip => String::from_str("zip"),
                ArchiveFileType::Rar => String::from_str("rar"),
            },
            FileClassification::Regular => String::new(),
        }
    }
}

impl EntryClassification {
    /// The label under which the classification is reported.
    pub fn label(&self) -> (text: String)
        ensures
            text@ == label_of(*self),
    {
        match self {
            EntryClassification::File(class) => class.label(),
            EntryClassification::Dir(class) => class.label(),
        }
    }

    /// Whether a report leaves the classification out.
    pub fn is_suppressed(&self) -> (out: bool)
        ensures
            out == suppressed(*self),
    {
        match self {
            EntryClassification::File(class) => match class {
                FileClassification::Regular => true,
                FileClassification::Document(DocumentFileType::Text) => true,
                FileClassification::Spreadsheet(SpreadsheetFileType::Csv(delimiter)) => *delimiter
                    == UNDETERMINED,
                _ => false,
            },
            EntryClassification::Dir(DirectoryClassification::Regular) => true,
            _ => false,
        }
    }
}

/// The line that a report shows for an entry, or `None` where it shows
/// none.
pub fn report_line(path: &str, class: &EntryClassification) -> (line: Option<String>)
    ensures
        suppressed(*class) <==> line is None,
        line matches Some(text) ==> text@ == line_of(path@, *class),
{
    if class.is_suppressed() {
        None
    } else {
        let mut text = String::from_str(path);
        text.append(" # ");
        text.append(class.label().as_str());
        Some(text)
    }
}

} // verus!
