//! The outcome of a self-test of the widgets, one flag for each kind.

use vstd::prelude::*;

verus! {

/// Which groups of a self-test passed.
#[derive(Clone, Copy, Debug, PartialEq, Eq, Structural)]
pub struct TestResults {
    pub button_tests: bool,
    pub textfield_tests: bool,
    pub checkbox_tests: bool,
    pub dropdown_tests: bool,
    pub style_tests: bool,
    /// All groups passed, as of the last `update_all_passed`.
    pub all_passed: bool,
}

impl TestResults {
    /// Whether every group passed.
    pub open spec fn every_group_passed(self) -> bool {
        &&& self.button_tests
        &&& self.textfield_tests
        &&& self.checkbox_tests
        &&& self.dropdown_tests
        &&& self.style_tests
    }

    /// Results with nothing passed yet.
    pub fn new() -> (results: TestResults)
        ensures
            results == (TestResults {
                button_tests: false,
                textfield_tests: false,
                checkbox_tests: false,
                dropdown_tests: false,
                style_tests: false,
                all_passed: false,
            }),
    {
        TestResults {
            button_tests: false,
            textfield_tests: false,
            checkbox_tests: false,
            dropdown_tests: false,
            style_tests: false,
            all_passed: false,
        }
    }

    /// Sets `all_passed` from the groups.
    pub fn update_all_passed(&mut self)
        ensures
            *final(self) == (TestResults {
                all_passed: old(self).every_group_passed(),
                ..*old(self)
            }),
    {
        self.all_passed = self.button_tests && self.textfield_tests && self.checkbox_tests
            && self.dropdown_tests && self.style_tests;
    }
}

} // verus!
