//! What an entry can be taken for.

use vstd::prelude::*;

verus! {

#[derive(Clone, Copy, Debug, PartialEq, Eq, Structural)]
pub enum VersionControlSystem {
    Git,
    Svn,
}

#[derive(Clone, Copy, Debug, PartialEq, Eq, Structural)]
pub enum DirectoryClassification {
    Regular,
    VersionControl(VersionControlSystem),
}

#[derive(Clone, Copy, Debug, PartialEq, Eq, Structural)]
pub enum SpreadsheetFileType {
    Excel,
    /// Delimited text, with the delimiter guessed from its content, or
    /// `'\0'` where none could be guessed.
    Csv(char),
}

#[derive(Clone, Copy, Debug, PartialEq, Eq, Structural)]
pub enum DocumentFileType {
    Pdf,
    Text,
    Word,
}

#[derive(Clone, Copy, Debug, PartialEq, Eq, Structural)]
pub enum SecretFileType {
    Env,
}

#[derive(Clone, Copy, Debug, PartialEq, Eq, Structural)]
pub enum ConfigurationFileType {
    Yaml,
    Json,
    Ini,
}

#[derive(Clone, Copy, Debug, PartialEq, Eq, Structural)]
pub enum DatabaseFileType {
    Sqlite,
    Sql,
    Db,
    Pdb,
}

#[derive(Clone, Copy, Debug, PartialEq, Eq, Structural)]
pub enum ArchiveFileType {
    Zip,
    Rar,
}

#[derive(Clone, Copy, Debug, PartialEq, Eq, Structural)]
pub enum FileClassification {
    Regular,
    Secret(SecretFileType),
    Spreadsheet(SpreadsheetFileType),
    Document(DocumentFileType),
    Configuration(ConfigurationFileType),
    Database(DatabaseFileType),
    Archive(ArchiveFileType),
}

#[derive(Clone, Copy, Debug, PartialEq, Eq, Structural)]
pub enum EntryClassification {
    File(FileClassification),
    Dir(DirectoryClassification),
}

} // verus!
