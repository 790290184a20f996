use diesel_full_text_search::configuration::{TsConfiguration, TsConfigurationByName};
use diesel_full_text_search::DecodeError;

fn literal(name: &'static str) -> String {
    let mut out = String::new();
    TsConfigurationByName(name).walk_ast(&mut out);
    out
}

// What SQL reads from a quoted literal.
fn read_literal(sql: &str) -> Option<String> {
    let inner = sql.strip_prefix('\'')?.strip_suffix('\'')?;
    let mut text = String::new();
    let mut chars = inner.chars();
    while let Some(c) = chars.next() {
        if c == '\'' && chars.next() != Some('\'') {
            return None;
        }
        text.push(c);
    }
    Some(text)
}

#[test]
fn english_on_the_wire() {
    let english = TsConfiguration(TsConfiguration::ENGLISH);
    assert_eq!(english.to_sql(), 12828u32.to_be_bytes());
    assert_eq!(english.to_sql(), [0x00, 0x00, 0x32, 0x1c]);
    assert_eq!(
        TsConfiguration::from_sql(&12828u32.to_be_bytes()),
        Ok(TsConfiguration(TsConfiguration::ENGLISH))
    );
}

#[test]
fn built_in_configurations() {
    assert_eq!(TsConfiguration::SIMPLE, 3748);
    assert_eq!(TsConfiguration::DANISH, 12824);
    assert_eq!(TsConfiguration::DUTCH, 12826);
    assert_eq!(TsConfiguration::ENGLISH, 12828);
    assert_eq!(TsConfiguration::FINNISH, 12830);
    assert_eq!(TsConfiguration::FRENCH, 12832);
    assert_eq!(TsConfiguration::GERMAN, 12834);
    assert_eq!(TsConfiguration::HUNGARIAN, 12836);
    assert_eq!(TsConfiguration::ITALIAN, 12838);
    assert_eq!(TsConfiguration::NORWEGIAN, 12840);
    assert_eq!(TsConfiguration::PORTUGUESE, 12842);
    assert_eq!(TsConfiguration::ROMANIAN, 12844);
    assert_eq!(TsConfiguration::RUSSIAN, 12846);
    assert_eq!(TsConfiguration::SPANISH, 12848);
    assert_eq!(TsConfiguration::SWEDISH, 12850);
    assert_eq!(TsConfiguration::TURKISH, 12852);
}

#[test]
fn any_four_bytes_are_a_configuration() {
    assert_eq!(
        TsConfiguration::from_sql(&[0, 0, 0, 0]),
        Ok(TsConfiguration(0))
    );
    assert_eq!(
        TsConfiguration::from_sql(&[0xff, 0xff, 0xff, 0xff]),
        Ok(TsConfiguration(u32::MAX))
    );
    assert_eq!(
        TsConfiguration::from_sql(&[0x01, 0x02, 0x03, 0x04]),
        Ok(TsConfiguration(0x01020304))
    );
}

#[test]
fn configuration_of_another_length_is_refused() {
    assert_eq!(TsConfiguration::from_sql(&[]), Err(DecodeError::Truncated));
    assert_eq!(
        TsConfiguration::from_sql(&[0, 0, 0x32]),
        Err(DecodeError::Truncated)
    );
    assert_eq!(
        TsConfiguration::from_sql(&[0, 0, 0x32, 0x1c, 0]),
        Err(DecodeError::TrailingBytes)
    );
}

#[test]
fn configuration_bytes_are_most_significant_first() {
    assert_eq!(TsConfiguration(0x01020304).to_sql(), [1, 2, 3, 4]);
    assert_eq!(TsConfiguration(3748).to_sql(), [0, 0, 0x0e, 0xa4]);
    assert_eq!(TsConfiguration(u32::MAX).to_sql(), [0xff; 4]);
}

#[test]
fn configuration_survives_the_wire() {
    for oid in [0u32, 1, 255, 256, 3748, 12852, 0x7fff_ffff, 0x8000_0000, u32::MAX] {
        assert_eq!(
            TsConfiguration::from_sql(&TsConfiguration(oid).to_sql()),
            Ok(TsConfiguration(oid))
        );
    }
}

#[test]
fn name_is_written_as_a_literal() {
    assert_eq!(literal("english"), "'english'");
    assert_eq!(literal(""), "''");
}

#[test]
fn quotes_in_a_name_are_doubled() {
    assert_eq!(literal("o'neil"), "'o''neil'");
    assert_eq!(literal("'"), "''''");
    assert_eq!(literal("''"), "''''''");
    assert_eq!(literal("a'b'c"), "'a''b''c'");
    assert_eq!(literal("say \"hi\""), "'say \"hi\"'");
}

#[test]
fn literal_is_appended_to_what_is_there() {
    let mut out = String::from("SELECT to_tsvector(");
    TsConfigurationByName("french").walk_ast(&mut out);
    assert_eq!(out, "SELECT to_tsvector('french'");
}

#[test]
fn literal_reads_back_as_the_name() {
    for name in ["english", "", "'", "''", "o'neil", "'x'", "é'è", "a''", "x' OR '1'='1"] {
        assert_eq!(read_literal(&literal(name)).as_deref(), Some(name));
    }
}
