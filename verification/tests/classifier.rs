use axon_core::orchestrator::classifier::{classify_command, classify_lowered, CommandClass};

#[test]
fn test_classify_build() {
    assert_eq!(classify_command("/build axon_core"), CommandClass::Build);

    assert_eq!(classify_command("cargo build --release"), CommandClass::Build);
}

#[test]
fn test_classify_status() {
    assert_eq!(classify_command("/status"), CommandClass::Status);

    assert_eq!(classify_command("worker health"), CommandClass::Status);
}

#[test]
fn test_classify_rag() {
    assert_eq!(classify_command("search for error in logs"), CommandClass::RagSearch);
}

#[test]
fn test_classify_ai() {
    assert_eq!(classify_command("Why is the linker failing?"), CommandClass::AiQuery);
}

#[test]
fn test_unknown() {
    assert_eq!(classify_command("build"), CommandClass::Build);
}

#[test]
fn blank_input_is_unknown() {
    assert_eq!(classify_command(""), CommandClass::Unknown);
    assert_eq!(classify_command("   \t\n"), CommandClass::Unknown);
}

#[test]
fn single_unknown_word_is_unknown() {
    assert_eq!(classify_command("hello"), CommandClass::Unknown);
    assert_eq!(classify_command("///"), CommandClass::Unknown);
}

#[test]
fn letter_case_and_slashes_are_ignored() {
    assert_eq!(classify_command("//BUILD"), CommandClass::Build);
    assert_eq!(classify_command("  /Status  "), CommandClass::Unknown);
    assert_eq!(classify_command("/  Status"), CommandClass::Status);
    assert_eq!(classify_command("please ReCompile it"), CommandClass::Build);
}

#[test]
fn rules_apply_in_order() {
    assert_eq!(classify_command("find the worker"), CommandClass::Status);
    assert_eq!(classify_command("rag"), CommandClass::RagSearch);
    assert_eq!(classify_command("do a lookup"), CommandClass::RagSearch);
    assert_eq!(classify_command("why?"), CommandClass::AiQuery);
    assert_eq!(classify_command("abcdefghijklmnopqrstu"), CommandClass::AiQuery);
    assert_eq!(classify_command("abcdefghijklmnopqrst"), CommandClass::Unknown);
}

#[test]
fn length_counts_bytes() {
    // ten two-byte letters are twenty bytes, eleven are twenty-two
    assert_eq!(classify_command("\u{e9}\u{e9}\u{e9}\u{e9}\u{e9}\u{e9}\u{e9}\u{e9}\u{e9}\u{e9}"), CommandClass::Unknown);
    assert_eq!(
        classify_command("\u{e9}\u{e9}\u{e9}\u{e9}\u{e9}\u{e9}\u{e9}\u{e9}\u{e9}\u{e9}\u{e9}"),
        CommandClass::AiQuery
    );
}

#[test]
fn classification_goes_by_the_lower_case_form() {
    assert_eq!(classify_lowered("/STATUS", "/status"), CommandClass::Status);
    // handed back unchanged, the upper-case form matches no keyword
    assert_eq!(classify_lowered("/STATUS", "/STATUS"), CommandClass::Unknown);
    assert_eq!(classify_lowered("   ", "build"), CommandClass::Unknown);
    assert_eq!(classify_command("/STATUS"), CommandClass::Status);
}
