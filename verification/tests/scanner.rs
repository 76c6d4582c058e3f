use latex_wizard::scan::{contains_package_directive, scan_features};

fn v(s: &str) -> Vec<u8> {
    s.as_bytes().to_vec()
}

#[test]
fn glossary_directive_sets_the_flag() {
    let doc = v("\\documentclass{article}\n\\usepackage{glossaries}\n\\begin{document}\n");
    let flags = scan_features(&doc);
    assert!(flags.has_glossary);
    assert!(!flags.has_bibliography);
}

#[test]
fn bibliography_directive_with_options_sets_the_flag() {
    let doc = v("\\usepackage[style=ieee]{biblatex}\n");
    let flags = scan_features(&doc);
    assert!(!flags.has_glossary);
    assert!(flags.has_bibliography);
}

#[test]
fn plain_document_sets_neither_flag() {
    let doc = v("\\documentclass{article}\n\\begin{document}\nHello.\n\\end{document}\n");
    let flags = scan_features(&doc);
    assert!(!flags.has_glossary);
    assert!(!flags.has_bibliography);
}

#[test]
fn all_three_bibliography_packages_are_recognized() {
    assert!(scan_features(&v("\\usepackage{biblatex}")).has_bibliography);
    assert!(scan_features(&v("\\usepackage{bibtex}")).has_bibliography);
    assert!(scan_features(&v("\\usepackage{natbib}")).has_bibliography);
    assert!(!scan_features(&v("\\usepackage{geometry}")).has_bibliography);
}

#[test]
fn options_may_hold_braces_but_not_brackets() {
    // An option list with a braced command inside is still matched.
    let ok = v("\\usepackage[my_opt=\\my_command{y}]{biblatex}");
    assert!(scan_features(&ok).has_bibliography);
    // One with a nested bracket inside is not: a documented limitation that
    // is kept as it is.
    let nested = v("\\usepackage[my_opt=\\my_command[x]{y}]{biblatex}");
    assert!(!scan_features(&nested).has_bibliography);
}

#[test]
fn empty_option_list_is_matched() {
    assert!(scan_features(&v("\\usepackage[]{glossaries}")).has_glossary);
}

#[test]
fn directive_must_be_complete() {
    assert!(!scan_features(&v("\\usepackage{glossaries")).has_glossary);
    assert!(!scan_features(&v("usepackage{glossaries}")).has_glossary);
    assert!(!scan_features(&v("\\usepackage {glossaries}")).has_glossary);
    assert!(!scan_features(&v("\\usepackage[x]{glossariesx}")).has_glossary);
}

#[test]
fn directive_is_found_anywhere_in_the_text() {
    let name = v("glossaries");
    let doc = v("% comment\nsome text \\usepackage[acronym]{glossaries} more text");
    assert!(contains_package_directive(&doc, &name));
    assert!(!contains_package_directive(&v(""), &name));
}
