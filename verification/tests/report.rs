use fsaudit::classification::{
    ArchiveFileType, ConfigurationFileType, DatabaseFileType, DirectoryClassification,
    DocumentFileType, EntryClassification, FileClassification, SecretFileType,
    SpreadsheetFileType, VersionControlSystem,
};
use fsaudit::report::report_line;

#[test]
fn every_classification_has_its_label() {
    let table = [
        (FileClassification::Secret(SecretFileType::Env), "dotenv"),
        (FileClassification::Spreadsheet(SpreadsheetFileType::Excel), "excel"),
        (FileClassification::Spreadsheet(SpreadsheetFileType::Csv(';')), "csv(';')"),
        (FileClassification::Spreadsheet(SpreadsheetFileType::Csv('\t')), "csv('\t')"),
        (FileClassification::Spreadsheet(SpreadsheetFileType::Csv('\0')), "csv('\0')"),
        (FileClassification::Document(DocumentFileType::Pdf), "pdf"),
        (FileClassification::Document(DocumentFileType::Text), "txt"),
        (FileClassification::Document(DocumentFileType::Word), "word"),
        (FileClassification::Database(DatabaseFileType::Sqlite), "sqlite"),
        (FileClassification::Database(DatabaseFileType::Sql), "sql"),
        (FileClassification::Database(DatabaseFileType::Db), "db"),
        (FileClassification::Database(DatabaseFileType::Pdb), "pdb"),
        (FileClassification::Configuration(ConfigurationFileType::Yaml), "yaml"),
        (FileClassification::Configuration(ConfigurationFileType::Json), "json"),
        (FileClassification::Configuration(ConfigurationFileType::Ini), "ini"),
        (FileClassification::Archive(ArchiveFileType::Zip), "zip"),
        (FileClassification::Archive(ArchiveFileType::Rar), "rar"),
        (FileClassification::Regular, ""),
    ];
    for (class, label) in table {
        assert_eq!(class.label(), label);
        assert_eq!(EntryClassification::File(class).label(), label);
    }
}

#[test]
fn directories_have_their_labels() {
    let git = DirectoryClassification::VersionControl(VersionControlSystem::Git);
    let svn = DirectoryClassification::VersionControl(VersionControlSystem::Svn);
    assert_eq!(git.label(), "git");
    assert_eq!(svn.label(), "svn");
    assert_eq!(DirectoryClassification::Regular.label(), "");
    assert_eq!(EntryClassification::Dir(git).label(), "git");
    assert_eq!(EntryClassification::Dir(svn).label(), "svn");
}

#[test]
fn plain_entries_are_left_out() {
    let left_out = [
        EntryClassification::Dir(DirectoryClassification::Regular),
        EntryClassification::File(FileClassification::Regular),
        EntryClassification::File(FileClassification::Document(DocumentFileType::Text)),
        EntryClassification::File(FileClassification::Spreadsheet(SpreadsheetFileType::Csv('\0'))),
    ];
    for class in left_out {
        assert!(class.is_suppressed());
        assert_eq!(report_line("R/x", &class), None);
    }
}

#[test]
fn all_other_entries_get_a_line() {
    let shown = [
        (EntryClassification::Dir(DirectoryClassification::VersionControl(VersionControlSystem::Git)), "R/x # git"),
        (EntryClassification::Dir(DirectoryClassification::VersionControl(VersionControlSystem::Svn)), "R/x # svn"),
        (EntryClassification::File(FileClassification::Secret(SecretFileType::Env)), "R/x # dotenv"),
        (EntryClassification::File(FileClassification::Spreadsheet(SpreadsheetFileType::Excel)), "R/x # excel"),
        (EntryClassification::File(FileClassification::Spreadsheet(SpreadsheetFileType::Csv(' '))), "R/x # csv(' ')"),
        (EntryClassification::File(FileClassification::Document(DocumentFileType::Pdf)), "R/x # pdf"),
        (EntryClassification::File(FileClassification::Document(DocumentFileType::Word)), "R/x # word"),
        (EntryClassification::File(FileClassification::Database(DatabaseFileType::Db)), "R/x # db"),
        (EntryClassification::File(FileClassification::Configuration(ConfigurationFileType::Ini)), "R/x # ini"),
        (EntryClassification::File(FileClassification::Archive(ArchiveFileType::Rar)), "R/x # rar"),
    ];
    for (class, line) in shown {
        assert!(!class.is_suppressed());
        assert_eq!(report_line("R/x", &class), Some(line.to_string()));
    }
}

#[test]
fn the_path_is_printed_as_it_is() {
    let class = EntryClassification::File(FileClassification::Archive(ArchiveFileType::Zip));
    assert_eq!(report_line("", &class), Some(" # zip".to_string()));
    assert_eq!(
        report_line("C:\\Users\\é # x\\a.zip", &class),
        Some("C:\\Users\\é # x\\a.zip # zip".to_string())
    );
}
