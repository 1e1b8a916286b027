use ctoption::{CTNone, CTOption, CTSome};

struct Builder<const B0: bool, const B1: bool, const B2: bool, const B3: bool, const B4: bool> {
    field0: CTOption<i32, B0>,
    field1: CTOption<i32, B1>,
    field2: CTOption<i32, B2>,
    field3: CTOption<i32, B3>,
    field4: CTOption<i32, B4>,
}

impl Builder<false, false, false, false, false> {
    fn new() -> Self {
        Self {
            field0: CTNone::new(),
            field1: CTNone::new(),
            field2: CTNone::new(),
            field3: CTNone::new(),
            field4: CTNone::new(),
        }
    }
}

impl<const B1: bool, const B2: bool, const B3: bool, const B4: bool> Builder<false, B1, B2, B3, B4> {
    fn set_field0(self, val: i32) -> Builder<true, B1, B2, B3, B4> {
        Builder {
            field0: CTSome::new(val),
            field1: self.field1,
            field2: self.field2,
            field3: self.field3,
            field4: self.field4,
        }
    }
}

impl<const B0: bool, const B2: bool, const B3: bool, const B4: bool> Builder<B0, false, B2, B3, B4> {
    fn set_field1(self, val: i32) -> Builder<B0, true, B2, B3, B4> {
        Builder {
            field0: self.field0,
            field1: CTSome::new(val),
            field2: self.field2,
            field3: self.field3,
            field4: self.field4,
        }
    }
}

impl<const B0: bool, const B1: bool, const B3: bool, const B4: bool> Builder<B0, B1, false, B3, B4> {
    fn set_field2(self, val: i32) -> Builder<B0, B1, true, B3, B4> {
        Builder {
            field0: self.field0,
            field1: self.field1,
            field2: CTSome::new(val),
            field3: self.field3,
            field4: self.field4,
        }
    }
}

impl<const B0: bool, const B1: bool, const B2: bool, const B4: bool> Builder<B0, B1, B2, false, B4> {
    fn set_field3(self, val: i32) -> Builder<B0, B1, B2, true, B4> {
        Builder {
            field0: self.field0,
            field1: self.field1,
            field2: self.field2,
            field3: CTSome::new(val),
            field4: self.field4,
        }
    }
}

impl<const B0: bool, const B1: bool, const B2: bool, const B3: bool> Builder<B0, B1, B2, B3, false> {
    fn set_field4(self, val: i32) -> Builder<B0, B1, B2, B3, true> {
        Builder {
            field0: self.field0,
            field1: self.field1,
            field2: self.field2,
            field3: self.field3,
            field4: CTSome::new(val),
        }
    }
}

impl<const B4: bool> Builder<true, true, true, true, B4> {
    fn build_first_four(self) -> [i32; 4] {
        [
            self.field0.assume_some().into_inner(),
            self.field1.assume_some().into_inner(),
            self.field2.assume_some().into_inner(),
            self.field3.assume_some().into_inner(),
        ]
    }
}

impl Builder<true, true, true, true, true> {
    fn build_all(self) -> [i32; 5] {
        [
            self.field0.into_inner(),
            self.field1.into_inner(),
            self.field2.into_inner(),
            self.field3.into_inner(),
            self.field4.into_inner(),
        ]
    }
}

#[test]
fn builder_with_all_five_fields() {
    let v = Builder::new()
        .set_field0(1)
        .set_field1(2)
        .set_field2(3)
        .set_field3(3)
        .set_field4(5)
        .build_all();
    assert!(v == [1, 2, 3, 3, 5]);
    assert!(core::mem::size_of_val(&v) == 5 * core::mem::size_of::<i32>());
}

#[test]
fn builder_with_first_four_fields() {
    let v = Builder::new()
        .set_field0(1)
        .set_field1(2)
        .set_field2(3)
        .set_field3(3)
        .build_first_four();
    assert!(v == [1, 2, 3, 3]);
    assert!(core::mem::size_of_val(&v) == 4 * core::mem::size_of::<i32>());
}

#[test]
fn builder_fields_can_be_set_in_any_order() {
    let v = Builder::new()
        .set_field3(4)
        .set_field1(2)
        .set_field0(1)
        .set_field2(3)
        .build_first_four();
    assert_eq!(v, [1, 2, 3, 4]);
}
