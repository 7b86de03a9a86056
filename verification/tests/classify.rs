use fsaudit::classification::{
    ArchiveFileType, ConfigurationFileType, DatabaseFileType, DirectoryClassification,
    DocumentFileType, EntryClassification, FileClassification, SecretFileType,
    SpreadsheetFileType, VersionControlSystem,
};
use fsaudit::entry::{classify_extension, Entry};

fn file(name: &str) -> Entry {
    Entry { path: format!("R/{}", name), name: Some(name.to_string()), name_is_unicode: true, is_dir: false }
}

fn dir(name: &str) -> Entry {
    Entry { path: format!("R/{}", name), name: Some(name.to_string()), name_is_unicode: true, is_dir: true }
}

#[test]
fn dotenv_in_any_case_is_a_secret() {
    let secret = FileClassification::Secret(SecretFileType::Env);
    assert_eq!(file(".env").classify_file(""), secret);
    assert_eq!(file(".ENV").classify_file(""), secret);
    assert_eq!(file(".Env").classify_file("a,b,c"), secret);
    assert_eq!(file(".env").classify(""), EntryClassification::File(secret));
}

#[test]
fn only_the_whole_name_makes_a_secret() {
    assert_eq!(file("secrets.env").classify_file(""), FileClassification::Regular);
    assert_eq!(file(".env.txt").classify_file(""), FileClassification::Document(DocumentFileType::Text));
    assert_eq!(file("env").classify_file(""), FileClassification::Regular);
}

#[test]
fn git_and_svn_directories_in_any_case() {
    let git = DirectoryClassification::VersionControl(VersionControlSystem::Git);
    let svn = DirectoryClassification::VersionControl(VersionControlSystem::Svn);
    assert_eq!(dir(".git").classify_dir(), git);
    assert_eq!(dir(".GIT").classify_dir(), git);
    assert_eq!(dir(".Git").classify_dir(), git);
    assert_eq!(dir(".svn").classify_dir(), svn);
    assert_eq!(dir(".SVN").classify_dir(), svn);
    assert_eq!(dir(".git").classify(""), EntryClassification::Dir(git));
    assert_eq!(dir(".SVN").classify(""), EntryClassification::Dir(svn));
}

#[test]
fn other_directories_are_regular() {
    assert_eq!(dir("src").classify_dir(), DirectoryClassification::Regular);
    assert_eq!(dir("git").classify_dir(), DirectoryClassification::Regular);
    assert_eq!(dir(".github").classify_dir(), DirectoryClassification::Regular);
    assert_eq!(dir("archive.zip").classify_dir(), DirectoryClassification::Regular);
    assert_eq!(
        dir(".env").classify(""),
        EntryClassification::Dir(DirectoryClassification::Regular)
    );
    let nameless = Entry { path: "/".to_string(), name: None, name_is_unicode: true, is_dir: true };
    assert_eq!(nameless.classify_dir(), DirectoryClassification::Regular);
}

#[test]
fn a_file_named_like_a_repository_is_no_directory() {
    assert_eq!(
        file(".git").classify(""),
        EntryClassification::File(FileClassification::Regular)
    );
}

#[test]
fn every_known_extension_has_its_category() {
    let word = FileClassification::Document(DocumentFileType::Word);
    let table = [
        ("xls", FileClassification::Spreadsheet(SpreadsheetFileType::Excel)),
        ("xlsx", FileClassification::Spreadsheet(SpreadsheetFileType::Excel)),
        ("txt", FileClassification::Document(DocumentFileType::Text)),
        ("log", FileClassification::Document(DocumentFileType::Text)),
        ("pdf", FileClassification::Document(DocumentFileType::Pdf)),
        ("rtf", word),
        ("odt", word),
        ("xps", word),
        ("wps", word),
        ("dotx", word),
        ("dotm", word),
        ("docx", word),
        ("docm", word),
        ("doc", word),
        ("db", FileClassification::Database(DatabaseFileType::Db)),
        ("dump", FileClassification::Database(DatabaseFileType::Db)),
        ("sqlite", FileClassification::Database(DatabaseFileType::Sqlite)),
        ("sqlite3", FileClassification::Database(DatabaseFileType::Sqlite)),
        ("sql", FileClassification::Database(DatabaseFileType::Sql)),
        ("mysql", FileClassification::Database(DatabaseFileType::Sql)),
        ("pgsql", FileClassification::Database(DatabaseFileType::Sql)),
        ("pdb", FileClassification::Database(DatabaseFileType::Pdb)),
        ("yaml", FileClassification::Configuration(ConfigurationFileType::Yaml)),
        ("json", FileClassification::Configuration(ConfigurationFileType::Json)),
        ("ini", FileClassification::Configuration(ConfigurationFileType::Ini)),
        ("zip", FileClassification::Archive(ArchiveFileType::Zip)),
        ("rar", FileClassification::Archive(ArchiveFileType::Rar)),
    ];
    for (ext, class) in table {
        assert_eq!(file(&format!("name.{}", ext)).classify_file(""), class);
        assert_eq!(file(&format!("NAME.{}", ext.to_uppercase())).classify_file(""), class);
        let chars: Vec<char> = ext.chars().collect();
        assert_eq!(classify_extension(&chars, ""), class);
    }
}

#[test]
fn unknown_or_missing_extensions_are_regular() {
    for name in ["photo.png", "Makefile", "a.", "a.xlsl", "a.xl", "a.xlsxx", "a.yml", "a.csvx", "a.tx", ".txt", "a.pdf.bak"] {
        assert_eq!(file(name).classify_file("a,b,c"), FileClassification::Regular);
    }
    let nameless = Entry { path: "R/..".to_string(), name: None, name_is_unicode: true, is_dir: false };
    assert_eq!(nameless.classify_file("a,b,c"), FileClassification::Regular);
}

#[test]
fn delimited_text_carries_its_delimiter() {
    assert_eq!(
        file("data.csv").classify_file("a,b,c\n1,2,3\n"),
        FileClassification::Spreadsheet(SpreadsheetFileType::Csv(','))
    );
    assert_eq!(
        file("data.csv").classify_file("a;b;c\n1;2;3\n"),
        FileClassification::Spreadsheet(SpreadsheetFileType::Csv(';'))
    );
    assert_eq!(
        file("DATA.CSV").classify_file(""),
        FileClassification::Spreadsheet(SpreadsheetFileType::Csv('\0'))
    );
}

#[test]
fn classification_repeats_itself() {
    let entry = file("data.csv");
    assert_eq!(entry.classify("a|b|c"), entry.classify("a|b|c"));
    assert_eq!(entry.clone().classify("a|b|c"), entry.classify("a|b|c"));
    let moved = Entry { path: "elsewhere/data.csv".to_string(), name: Some("data.csv".to_string()), name_is_unicode: true, is_dir: false };
    assert_eq!(moved.classify("a|b|c"), entry.classify("a|b|c"));
}

#[test]
fn content_is_asked_for_delimited_text_only() {
    assert!(file("data.csv").needs_content());
    assert!(file("data.CSV").needs_content());
    assert!(!file("data.txt").needs_content());
    assert!(!file(".env").needs_content());
    assert!(!file("csv").needs_content());
    assert!(!file(".csv").needs_content());
    assert!(!dir("data.csv").needs_content());
    assert_eq!(file("a.pdf").classify("a,b,c"), file("a.pdf").classify(""));
}

#[test]
fn excel_workbooks_old_and_new() {
    let excel = FileClassification::Spreadsheet(SpreadsheetFileType::Excel);
    assert_eq!(file("book.xlsx").classify_file(""), excel);
    assert_eq!(file("book.xls").classify_file(""), excel);
    assert_eq!(file("BOOK.XLSX").classify_file("a,b,c"), excel);
    assert_eq!(file("book.xlsx").classify(""), EntryClassification::File(excel));
    assert!(!file("book.xlsx").needs_content());
}

#[test]
fn classification_does_not_ask_whether_the_name_is_unicode() {
    let replaced = Entry {
        path: "R/\u{FFFD}.pdf".to_string(),
        name: Some("\u{FFFD}.pdf".to_string()),
        name_is_unicode: false,
        is_dir: false,
    };
    assert_eq!(replaced.classify_file(""), FileClassification::Document(DocumentFileType::Pdf));
}
