use raylib_interactive::dropdown::Dropdown;

#[derive(Debug, Clone, PartialEq)]
enum TestOption {
    Option1,
    Option2,
    Option3,
    Option4,
    Option5,
    Option6,
    Option7,
    Option8,
}

impl TestOption {
    fn to_string(&self) -> String {
        match self {
            TestOption::Option1 => "First Option".to_string(),
            TestOption::Option2 => "Second Option".to_string(),
            TestOption::Option3 => "Third Option".to_string(),
            TestOption::Option4 => "Fourth Option".to_string(),
            TestOption::Option5 => "Fifth Option".to_string(),
            TestOption::Option6 => "Sixth Option".to_string(),
            TestOption::Option7 => "Seventh Option".to_string(),
            TestOption::Option8 => "Eighth Option".to_string(),
        }
    }

    fn from_index(index: usize) -> Option<Self> {
        match index {
            0 => Some(TestOption::Option1),
            1 => Some(TestOption::Option2),
            2 => Some(TestOption::Option3),
            3 => Some(TestOption::Option4),
            4 => Some(TestOption::Option5),
            5 => Some(TestOption::Option6),
            6 => Some(TestOption::Option7),
            7 => Some(TestOption::Option8),
            _ => None,
        }
    }

    fn all_options() -> Vec<TestOption> {
        vec![
            TestOption::Option1,
            TestOption::Option2,
            TestOption::Option3,
            TestOption::Option4,
            TestOption::Option5,
            TestOption::Option6,
            TestOption::Option7,
            TestOption::Option8,
        ]
    }
}

fn enum_dropdown() -> Dropdown {
    let enum_options = TestOption::all_options();
    let dropdown_items: Vec<String> = enum_options.iter().map(|opt| opt.to_string()).collect();
    Dropdown::new(0, 0, 300, 30, dropdown_items)
}

#[test]
fn test_enum_dropdown_creation() {
    let dropdown = enum_dropdown();

    assert_eq!(dropdown.items.len(), 8);
    assert_eq!(dropdown.items[0], "First Option");
    assert_eq!(dropdown.items[1], "Second Option");
    assert_eq!(dropdown.items[7], "Eighth Option");
}

#[test]
fn test_enum_dropdown_selection() {
    let mut dropdown = enum_dropdown();

    dropdown.selected_index = Some(2);
    assert_eq!(dropdown.selected_index, Some(2));

    if let Some(selected_index) = dropdown.selected_index {
        if let Some(selected_enum) = TestOption::from_index(selected_index) {
            assert_eq!(selected_enum, TestOption::Option3);
        }
    }
}

#[test]
fn test_enum_dropdown_all_selections() {
    let mut dropdown = enum_dropdown();

    for i in 0..8 {
        dropdown.selected_index = Some(i);
        if let Some(selected_enum) = TestOption::from_index(i) {
            assert_eq!(dropdown.selected_index, Some(i));
            assert_eq!(dropdown.items[i], selected_enum.to_string());
        }
    }
}

#[test]
fn test_enum_dropdown_with_yes_no_logic() {
    let _dropdown = enum_dropdown();
    let mut test_variable: i32 = -1;
    assert_eq!(test_variable, -1);

    test_variable = 1;
    assert_eq!(test_variable, 1);

    assert_eq!(test_variable, 1);

    test_variable = 0;
    assert_eq!(test_variable, 0);

    assert_ne!(test_variable, 1);
}

#[test]
fn test_enum_dropdown_with_selection_and_yes_no() {
    let mut dropdown = enum_dropdown();
    let mut test_variable: i32 = -1;
    assert_eq!(test_variable, -1);

    dropdown.selected_index = Some(3);
    let selected_enum = TestOption::from_index(3).unwrap();
    assert_eq!(selected_enum, TestOption::Option4);

    test_variable = 1;
    assert_eq!(test_variable, 1);

    test_variable = 0;
    assert_ne!(test_variable, 1);
}

#[test]
fn test_enum_dropdown_reset_functionality() {
    let mut dropdown = enum_dropdown();
    let mut test_variable: i32 = 1;
    assert_eq!(test_variable, 1);

    dropdown.selected_index = Some(5);
    assert_eq!(dropdown.selected_index, Some(5));

    dropdown.selected_index = None;
    test_variable = -1;

    assert_eq!(dropdown.selected_index, None);
    assert_eq!(test_variable, -1);
}

#[test]
fn test_enum_dropdown_max_visible_items() {
    let mut dropdown = enum_dropdown();

    dropdown.max_visible_items = 4;
    assert_eq!(dropdown.max_visible_items, 4);

    assert!(dropdown.items.len() > dropdown.max_visible_items);
    assert_eq!(dropdown.items.len(), 8);
}

#[test]
fn test_enum_dropdown_comprehensive() {
    let mut dropdown = enum_dropdown();
    let mut test_variable: i32 = -1;

    assert_eq!(dropdown.selected_index, None);
    assert_eq!(test_variable, -1);

    dropdown.selected_index = Some(1);
    let selected_enum = TestOption::from_index(1).unwrap();
    assert_eq!(selected_enum, TestOption::Option2);
    assert_eq!(selected_enum.to_string(), "Second Option");

    test_variable = 1;
    assert_eq!(test_variable, 1);

    assert_eq!(test_variable, 1);

    test_variable = 0;
    assert_eq!(test_variable, 0);

    assert_ne!(test_variable, 1);

    dropdown.selected_index = None;
    test_variable = -1;

    assert_eq!(dropdown.selected_index, None);
    assert_eq!(test_variable, -1);
}
