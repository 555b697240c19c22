//! The two sample values that the start-up self-test writes out and reads
//! back, and what it means for the value read back to equal the one written.

use vstd::prelude::*;
use vstd::std_specs::cmp::PartialEqSpecImpl;

verus! {

/// A record: names in a fixed order, and an identifier.
#[derive(Debug)]
pub struct TestStruct {
    pub names: Vec<String>,
    pub id: u128,
}

/// A value of one of two shapes: a number with a text, or a record.
#[derive(Debug)]
pub enum TestEnum {
    Test1 { wow: u128, no: String },
    Test2(TestStruct),
}

/// What a record holds.
pub struct TestStructView {
    pub names: Seq<Seq<char>>,
    pub id: u128,
}

/// What a sample value holds.
pub enum TestEnumView {
    Test1 { wow: u128, no: Seq<char> },
    Test2(TestStructView),
}

impl View for TestStruct {
    type V = TestStructView;

    open spec fn view(&self) -> TestStructView {
        TestStructView { names: self.names@.map_values(|name: String| name@), id: self.id }
    }
}

impl View for TestEnum {
    type V = TestEnumView;

    open spec fn view(&self) -> TestEnumView {
        match self {
            TestEnum::Test1 { wow, no } => TestEnumView::Test1 { wow: *wow, no: no@ },
            TestEnum::Test2(record) => TestEnumView::Test2(record@),
        }
    }
}

impl PartialEqSpecImpl for TestStruct {
    open spec fn obeys_eq_spec() -> bool {
        true
    }

    open spec fn eq_spec(&self, other: &TestStruct) -> bool {
        self@ == other@
    }
}

impl PartialEq for TestStruct {
    /// Two records are equal when they hold the same names in the same order
    /// and the same identifier.
    fn eq(&self, other: &TestStruct) -> (same: bool) {
        if self.id != other.id || self.names.len() != other.names.len() {
            assert(self@.id != other@.id || self@.names.len() != other@.names.len());
            return false;
        }
        let mut i: usize = 0;
        while i < self.names.len()
            invariant
                i <= self.names.len(),
                self.names.len() == other.names.len(),
                self.id == other.id,
                forall|j: int| 0 <= j < i ==> self.names[j]@ == other.names[j]@,
            decreases self.names.len() - i,
        {
            if self.names[i] != other.names[i] {
                assert(self@.names[i as int] != other@.names[i as int]);
                return false;
            }
            i += 1;
        }
        assert(self@.names =~= other@.names);
        true
    }
}

impl PartialEqSpecImpl for TestEnum {
    open spec fn obeys_eq_spec() -> bool {
        true
    }

    open spec fn eq_spec(&self, other: &TestEnum) -> bool {
        self@ == other@
    }
}

impl PartialEq for TestEnum {
    /// Two sample values are equal when they have the same shape and hold the
    /// same in every field.
    fn eq(&self, other: &TestEnum) -> (same: bool) {
        match (self, other) {
            (TestEnum::Test1 { wow: w1, no: n1 }, TestEnum::Test1 { wow: w2, no: n2 }) => {
                *w1 == *w2 && *n1 == *n2
            },
            (TestEnum::Test2(r1), TestEnum::Test2(r2)) => r1 == r2,
            _ => false,
        }
    }
}

} // verus!
