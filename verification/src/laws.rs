//! What holds of the rules as a whole.

use crate::classification::{
    ArchiveFileType, ConfigurationFileType, DatabaseFileType, DirectoryClassification,
    DocumentFileType, EntryClassification, FileClassification, SecretFileType,
    SpreadsheetFileType, VersionControlSystem,
};
use crate::entry::{dir_class, entry_class, extension_class, file_class, name_of, reads_content, Entry};
use crate::report::suppressed;
use crate::scan::line_for;
use crate::sniff::{candidate, delimiter_of, occurrences, sample, score, winner, winner_is_unique, wins};
use crate::text::{extension_of, lower};
use vstd::prelude::*;

verus! {

/// Whether `ext` is one of the extensions that the rules know.
pub open spec fn listed(ext: Seq<char>) -> bool {
    ext == "xls"@ || ext == "xlsx"@ || ext == "csv"@ || ext == "txt"@ || ext == "log"@ || ext == "pdf"@ || ext
        == "rtf"@ || ext == "odt"@ || ext == "xps"@ || ext == "wps"@ || ext == "dotx"@ || ext
        == "dotm"@ || ext == "docx"@ || ext == "docm"@ || ext == "doc"@ || ext == "db"@ || ext
        == "dump"@ || ext == "sqlite"@ || ext == "sqlite3"@ || ext == "sql"@ || ext == "mysql"@
        || ext == "pgsql"@ || ext == "pdb"@ || ext == "yaml"@ || ext == "json"@ || ext == "ini"@
        || ext == "zip"@ || ext == "rar"@
}

/// An entry's classification depends on nothing but its name, whether it is
/// a directory, and the first 50,000 characters of its content.
pub proof fn classification_is_determined(a: Entry, b: Entry, ca: Seq<char>, cb: Seq<char>)
    requires
        name_of(a) == name_of(b),
        a.is_dir == b.is_dir,
        sample(ca) == sample(cb),
    ensures
        entry_class(a, ca) == entry_class(b, cb),
{
}

/// The content matters only for files whose extension marks delimited
/// text.
pub proof fn content_matters_for_delimited_text_only(e: Entry, ca: Seq<char>, cb: Seq<char>)
    requires
        e.is_dir || !reads_content(name_of(e)),
    ensures
        entry_class(e, ca) == entry_class(e, cb),
{
}

/// A file whose whole name is `.env`, in any case, is a secret whatever its
/// content.
pub proof fn dotenv_is_secret(name: Seq<char>, content: Seq<char>)
    requires
        lower(name) == ".env"@,
    ensures
        file_class(Some(name), content) == FileClassification::Secret(SecretFileType::Env),
{
}

/// A directory whose name is `.git` in any case belongs to git, and one
/// whose name is `.svn` in any case belongs to svn.
pub proof fn version_control_directories(name: Seq<char>)
    ensures
        lower(name) == ".git"@ ==> dir_class(Some(name)) == DirectoryClassification::VersionControl(
            VersionControlSystem::Git,
        ),
        lower(name) == ".svn"@ ==> dir_class(Some(name)) == DirectoryClassification::VersionControl(
            VersionControlSystem::Svn,
        ),
{
    reveal_strlit(".git");
    reveal_strlit(".svn");
    assert(".git"@[1] != ".svn"@[1]);
}

/// A text in whose sample none of the delimiters occurs has an undetermined
/// delimiter.
pub proof fn no_delimiter_is_undetermined(content: Seq<char>)
    requires
        forall|k: int| 1 <= k < 7 ==> occurrences(sample(content), #[trigger] candidate(k)) == 0,
    ensures
        delimiter_of(content) == '\0',
{
    let s = sample(content);
    assert forall|j: int| 0 <= j < 7 implies #[trigger] score(s, j) <= score(s, 0) by {
        if j >= 1 {
            assert(occurrences(s, candidate(j)) == 0);
        }
    }
    assert(wins(s, 0));
    winner_is_unique(s, 0, winner(s));
}

/// An empty text has an undetermined delimiter.
pub proof fn empty_is_undetermined()
    ensures
        delimiter_of(Seq::<char>::empty()) == '\0',
{
    no_delimiter_is_undetermined(Seq::<char>::empty());
}

/// A file of delimited text whose delimiter is undetermined gets no line.
pub proof fn undetermined_is_not_shown(entry: Entry, content: Seq<char>)
    requires
        !entry.is_dir,
        reads_content(name_of(entry)),
        delimiter_of(content) == '\0',
    ensures
        line_for(entry, content) is None,
{
    reveal_strlit("csv");
    reveal_strlit("xls");
    reveal_strlit("xlsx");
    assert("csv"@[0] != "xls"@[0]);
    assert("csv"@.len() != "xlsx"@.len());
}

/// Every extension that the rules know, with what a file that has it is
/// taken for.
pub proof fn extension_table(content: Seq<char>)
    ensures
        extension_class("xls"@, content) == FileClassification::Spreadsheet(SpreadsheetFileType::Excel),
        extension_class("xlsx"@, content) == FileClassification::Spreadsheet(SpreadsheetFileType::Excel),
        extension_class("csv"@, content) == FileClassification::Spreadsheet(SpreadsheetFileType::Csv(delimiter_of(content))),
        extension_class("txt"@, content) == FileClassification::Document(DocumentFileType::Text),
        extension_class("log"@, content) == FileClassification::Document(DocumentFileType::Text),
        extension_class("pdf"@, content) == FileClassification::Document(DocumentFileType::Pdf),
        extension_class("rtf"@, content) == FileClassification::Document(DocumentFileType::Word),
        extension_class("odt"@, content) == FileClassification::Document(DocumentFileType::Word),
        extension_class("xps"@, content) == FileClassification::Document(DocumentFileType::Word),
        extension_class("wps"@, content) == FileClassification::Document(DocumentFileType::Word),
        extension_class("dotx"@, content) == FileClassification::Document(DocumentFileType::Word),
        extension_class("dotm"@, content) == FileClassification::Document(DocumentFileType::Word),
        extension_class("docx"@, content) == FileClassification::Document(DocumentFileType::Word),
        extension_class("docm"@, content) == FileClassification::Document(DocumentFileType::Word),
        extension_class("doc"@, content) == FileClassification::Document(DocumentFileType::Word),
        extension_class("db"@, content) == FileClassification::Database(DatabaseFileType::Db),
        extension_class("dump"@, content) == FileClassification::Database(DatabaseFileType::Db),
        extension_class("sqlite"@, content) == FileClassification::Database(DatabaseFileType::Sqlite),
        extension_class("sqlite3"@, content) == FileClassification::Database(DatabaseFileType::Sqlite),
        extension_class("sql"@, content) == FileClassification::Database(DatabaseFileType::Sql),
        extension_class("mysql"@, content) == FileClassification::Database(DatabaseFileType::Sql),
        extension_class("pgsql"@, content) == FileClassification::Database(DatabaseFileType::Sql),
        extension_class("pdb"@, content) == FileClassification::Database(DatabaseFileType::Pdb),
        extension_class("yaml"@, content) == FileClassification::Configuration(ConfigurationFileType::Yaml),
        extension_class("json"@, content) == FileClassification::Configuration(ConfigurationFileType::Json),
        extension_class("ini"@, content) == FileClassification::Configuration(ConfigurationFileType::Ini),
        extension_class("zip"@, content) == FileClassification::Archive(ArchiveFileType::Zip),
        extension_class("rar"@, content) == FileClassification::Archive(ArchiveFileType::Rar),
{
    // Spelling each word out lets the solver tell them apart.
    reveal_strlit("xls");
    assert("xls"@.len() == 3 && "xls"@[0] == 'x' && "xls"@[1] == 'l' && "xls"@[2] == 's');
    reveal_strlit("xlsx");
    assert("xlsx"@.len() == 4 && "xlsx"@[0] == 'x' && "xlsx"@[1] == 'l' && "xlsx"@[2] == 's' && "xlsx"@[3] == 'x');
    reveal_strlit("csv");
    assert("csv"@.len() == 3 && "csv"@[0] == 'c' && "csv"@[1] == 's' && "csv"@[2] == 'v');
    reveal_strlit("txt");
    assert("txt"@.len() == 3 && "txt"@[0] == 't' && "txt"@[1] == 'x' && "txt"@[2] == 't');
    reveal_strlit("log");
    assert("log"@.len() == 3 && "log"@[0] == 'l' && "log"@[1] == 'o' && "log"@[2] == 'g');
    reveal_strlit("pdf");
    assert("pdf"@.len() == 3 && "pdf"@[0] == 'p' && "pdf"@[1] == 'd' && "pdf"@[2] == 'f');
    reveal_strlit("rtf");
    assert("rtf"@.len() == 3 && "rtf"@[0] == 'r' && "rtf"@[1] == 't' && "rtf"@[2] == 'f');
    reveal_strlit("odt");
    assert("odt"@.len() == 3 && "odt"@[0] == 'o' && "odt"@[1] == 'd' && "odt"@[2] == 't');
    reveal_strlit("xps");
    assert("xps"@.len() == 3 && "xps"@[0] == 'x' && "xps"@[1] == 'p' && "xps"@[2] == 's');
    reveal_strlit("wps");
    assert("wps"@.len() == 3 && "wps"@[0] == 'w' && "wps"@[1] == 'p' && "wps"@[2] == 's');
    reveal_strlit("dotx");
    assert("dotx"@.len() == 4 && "dotx"@[0] == 'd' && "dotx"@[1] == 'o' && "dotx"@[2] == 't' && "dotx"@[3] == 'x');
    reveal_strlit("dotm");
    assert("dotm"@.len() == 4 && "dotm"@[0] == 'd' && "dotm"@[1] == 'o' && "dotm"@[2] == 't' && "dotm"@[3] == 'm');
    reveal_strlit("docx");
    assert("docx"@.len() == 4 && "docx"@[0] == 'd' && "docx"@[1] == 'o' && "docx"@[2] == 'c' && "docx"@[3] == 'x');
    reveal_strlit("docm");
    assert("docm"@.len() == 4 && "docm"@[0] == 'd' && "docm"@[1] == 'o' && "docm"@[2] == 'c' && "docm"@[3] == 'm');
    reveal_strlit("doc");
    assert("doc"@.len() == 3 && "doc"@[0] == 'd' && "doc"@[1] == 'o' && "doc"@[2] == 'c');
    reveal_strlit("db");
    assert("db"@.len() == 2 && "db"@[0] == 'd' && "db"@[1] == 'b');
    reveal_strlit("dump");
    assert("dump"@.len() == 4 && "dump"@[0] == 'd' && "dump"@[1] == 'u' && "dump"@[2] == 'm' && "dump"@[3] == 'p');
    reveal_strlit("sqlite");
    assert("sqlite"@.len() == 6 && "sqlite"@[0] == 's' && "sqlite"@[1] == 'q' && "sqlite"@[2] == 'l' && "sqlite"@[3] == 'i' && "sqlite"@[4] == 't' && "sqlite"@[5] == 'e');
    reveal_strlit("sqlite3");
    assert("sqlite3"@.len() == 7 && "sqlite3"@[0] == 's' && "sqlite3"@[1] == 'q' && "sqlite3"@[2] == 'l' && "sqlite3"@[3] == 'i' && "sqlite3"@[4] == 't' && "sqlite3"@[5] == 'e' && "sqlite3"@[6] == '3');
    reveal_strlit("sql");
    assert("sql"@.len() == 3 && "sql"@[0] == 's' && "sql"@[1] == 'q' && "sql"@[2] == 'l');
    reveal_strlit("mysql");
    assert("mysql"@.len() == 5 && "mysql"@[0] == 'm' && "mysql"@[1] == 'y' && "mysql"@[2] == 's' && "mysql"@[3] == 'q' && "mysql"@[4] == 'l');
    reveal_strlit("pgsql");
    assert("pgsql"@.len() == 5 && "pgsql"@[0] == 'p' && "pgsql"@[1] == 'g' && "pgsql"@[2] == 's' && "pgsql"@[3] == 'q' && "pgsql"@[4] == 'l');
    reveal_strlit("pdb");
    assert("pdb"@.len() == 3 && "pdb"@[0] == 'p' && "pdb"@[1] == 'd' && "pdb"@[2] == 'b');
    reveal_strlit("yaml");
    assert("yaml"@.len() == 4 && "yaml"@[0] == 'y' && "yaml"@[1] == 'a' && "yaml"@[2] == 'm' && "yaml"@[3] == 'l');
    reveal_strlit("json");
    assert("json"@.len() == 4 && "json"@[0] == 'j' && "json"@[1] == 's' && "json"@[2] == 'o' && "json"@[3] == 'n');
    reveal_strlit("ini");
    assert("ini"@.len() == 3 && "ini"@[0] == 'i' && "ini"@[1] == 'n' && "ini"@[2] == 'i');
    reveal_strlit("zip");
    assert("zip"@.len() == 3 && "zip"@[0] == 'z' && "zip"@[1] == 'i' && "zip"@[2] == 'p');
    reveal_strlit("rar");
    assert("rar"@.len() == 3 && "rar"@[0] == 'r' && "rar"@[1] == 'a' && "rar"@[2] == 'r');
}

/// A file whose name is not `.env` in any case is taken for what its
/// extension says, in any case.
pub proof fn file_follows_its_extension(name: Seq<char>, ext: Seq<char>, content: Seq<char>)
    requires
        lower(name) != ".env"@,
        extension_of(name) == Some(ext),
    ensures
        file_class(Some(name), content) == extension_class(lower(ext), content),
{
}

/// An extension that the rules do not know makes a regular file.
pub proof fn unlisted_is_regular(ext: Seq<char>, content: Seq<char>)
    requires
        !listed(ext),
    ensures
        extension_class(ext, content) == FileClassification::Regular,
{
}

/// A file whose name is not `.env` and has no extension, or one that the
/// rules do not know, is regular.
pub proof fn unlisted_file_is_regular(name: Seq<char>, content: Seq<char>)
    requires
        lower(name) != ".env"@,
        extension_of(name) matches Some(e) ==> !listed(lower(e)),
    ensures
        file_class(Some(name), content) == FileClassification::Regular,
{
}

/// A regular directory, a regular file and plain text get no line, whatever
/// the entry.
pub proof fn plain_is_not_shown(entry: Entry, content: Seq<char>)
    requires
        entry_class(entry, content) == EntryClassification::Dir(DirectoryClassification::Regular)
            || entry_class(entry, content) == EntryClassification::File(
            FileClassification::Regular,
        ) || entry_class(entry, content) == EntryClassification::File(
            FileClassification::Document(DocumentFileType::Text),
        ) || entry_class(entry, content) == EntryClassification::File(
            FileClassification::Spreadsheet(SpreadsheetFileType::Csv('\0')),
        ),
    ensures
        line_for(entry, content) is None,
{
}

} // verus!
