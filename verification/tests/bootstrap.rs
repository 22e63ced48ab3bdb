use cookbook::bootstrap::{connection_string, is_script, split_statements};

fn split_as_usual(content: &str) -> Vec<String> {
    content.split(';').map(|s| s.trim()).filter(|s| !s.is_empty()).map(|s| s.to_string()).collect()
}

#[test]
fn script_statements_are_split_and_trimmed() {
    let script = "\n-- recreate\nDROP DATABASE IF EXISTS cookbook;\nCREATE DATABASE cookbook ;\n\n;  ;\nUSE cookbook";
    assert_eq!(
        vec!["-- recreate\nDROP DATABASE IF EXISTS cookbook", "CREATE DATABASE cookbook", "USE cookbook"],
        split_statements(script)
    );
}

#[test]
fn script_without_statements_gives_none() {
    assert!(split_statements("").is_empty());
    assert!(split_statements(";;;").is_empty());
    assert!(split_statements(" \t\r\n ; \u{a0}\u{3000};").is_empty());
}

#[test]
fn script_splitting_agrees_with_the_usual_way() {
    let scripts = [
        "a",
        "a;",
        ";a",
        " a ; b ",
        "a;;b",
        "INSERT INTO t (x) VALUES ('1;2')",
        "\u{2003}x\u{2003};\u{85}y\u{1680}",
        "é; ü ;\u{200b}z\u{200b};",
        "a\u{b}\u{c};b",
        "ALTER TABLE ingredients AUTO_INCREMENT = 1000;\n",
    ];
    for script in scripts {
        assert_eq!(split_as_usual(script), split_statements(script), "{:?}", script);
    }
}

#[test]
fn scripts_are_sql_files_other_than_the_recreate_script() {
    let recreate = "sql/00-recreate-db.sql";
    assert!(is_script("sql/01-create-schema.sql", recreate));
    assert!(is_script("sql/02-dev-seed.sql", recreate));
    assert!(is_script(".sql", recreate));
    assert!(is_script("sql/00-recreate-db.sqm.sql", recreate));
    assert!(!is_script(recreate, recreate));
    assert!(!is_script("sql/readme.md", recreate));
    assert!(!is_script("sql/01-create-schema.sql.bak", recreate));
    assert!(!is_script("sql/01-create-schema.SQL", recreate));
    assert!(!is_script("sql", recreate));
    assert!(!is_script("", recreate));
    assert!(!is_script("sql/é.sq", recreate));
    assert!(is_script("sql/é.sql", recreate));
}

#[test]
fn connection_string_has_the_usual_shape() {
    assert_eq!(
        "mysql://cook:pw@localhost:3306/cookbook",
        connection_string("cook", "pw", "localhost:3306", "cookbook")
    );
    assert_eq!("mysql://:@/", connection_string("", "", "", ""));
}
