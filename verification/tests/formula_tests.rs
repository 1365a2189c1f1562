use voxel_terrain::voxels::biome_profile::get_instruction_params;
use voxel_terrain::voxels::biome_profile::is_whitespace;
use voxel_terrain::voxels::biome_profile::split_instruction;

fn strings(texts: &[&str]) -> Vec<String> {
    texts.iter().map(|text| text.to_string()).collect()
}

#[test]
fn white_space_is_what_the_standard_library_says() {
    for code in 0..=0x10FFFFu32 {
        if let Some(c) = char::from_u32(code) {
            assert_eq!(is_whitespace(c), c.is_whitespace(), "U+{:04X}", code);
        }
    }
    assert!(is_whitespace(' '));
    assert!(is_whitespace('\t'));
    assert!(is_whitespace('\u{3000}'));
    assert!(!is_whitespace('a'));
    assert!(!is_whitespace('\u{200B}'));
}

#[test]
fn arguments_are_split_at_commas() {
    assert_eq!(get_instruction_params("a, b)"), strings(&["a", "b"]));
    assert_eq!(get_instruction_params("a,b,c)"), strings(&["a", "b", "c"]));
    assert_eq!(get_instruction_params("12.5)"), strings(&["12.5"]));
    assert_eq!(get_instruction_params(")"), strings(&[""]));
    assert_eq!(get_instruction_params(",)"), strings(&["", ""]));
}

#[test]
fn commas_inside_brackets_split_nothing() {
    assert_eq!(
        get_instruction_params("Less(X, 3), Add(Depth, 2.5), Hills)"),
        strings(&["Less(X, 3)", "Add(Depth, 2.5)", "Hills"])
    );
    assert_eq!(
        get_instruction_params("If(Less(Y, 0), Mul(X, 2), 1), 4)"),
        strings(&["If(Less(Y, 0), Mul(X, 2), 1)", "4"])
    );
}

#[test]
fn arguments_are_trimmed() {
    assert_eq!(get_instruction_params("  a \t,\n b  )"), strings(&["a", "b"]));
    assert_eq!(get_instruction_params(" \u{00A0}a b\u{2003} )"), strings(&["a b"]));
    assert_eq!(get_instruction_params("   ,  )"), strings(&["", ""]));
    assert_eq!(get_instruction_params("\u{00E9}t\u{00E9} , \u{6C34} )"), strings(&["\u{00E9}t\u{00E9}", "\u{6C34}"]));
}

#[test]
fn what_follows_the_closing_bracket_is_not_looked_at() {
    assert_eq!(get_instruction_params("a) b, c)"), strings(&["a"]));
    assert_eq!(get_instruction_params("a, b))))"), strings(&["a", "b"]));
}

#[test]
fn without_the_closing_bracket_the_last_argument_is_left_out() {
    assert_eq!(get_instruction_params("a, b"), strings(&["a"]));
    assert_eq!(get_instruction_params("a"), strings(&[]));
    assert_eq!(get_instruction_params(""), strings(&[]));
    assert_eq!(get_instruction_params("f(a, b"), strings(&[]));
    assert_eq!(get_instruction_params("a, f(b), c"), strings(&["a", "f(b)"]));
}

#[test]
fn instruction_is_split_at_its_first_bracket() {
    assert_eq!(
        split_instruction("If(Less(X, 3), 1, 2)"),
        Some(("If".to_string(), strings(&["Less(X, 3)", "1", "2"])))
    );
    assert_eq!(split_instruction("Sin(X)"), Some(("Sin".to_string(), strings(&["X"]))));
    assert_eq!(split_instruction("Voxel( Stone )"), Some(("Voxel".to_string(), strings(&["Stone"]))));
    // The name is taken as it stands.
    assert_eq!(split_instruction(" Add (1, 2)"), Some((" Add ".to_string(), strings(&["1", "2"]))));
    assert_eq!(split_instruction("(a)"), Some(("".to_string(), strings(&["a"]))));
    assert_eq!(split_instruction("Add("), Some(("Add".to_string(), strings(&[]))));
}

#[test]
fn text_without_a_bracket_is_no_instruction() {
    assert_eq!(split_instruction("Depth"), None);
    assert_eq!(split_instruction("12.5"), None);
    assert_eq!(split_instruction(""), None);
    assert_eq!(split_instruction("a) b"), None);
}
