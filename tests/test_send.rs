use std::marker::PhantomData;
use std::rc::Rc;

use single_thread_cell::{SingleThreadCell, SingleThreadRef, SingleThreadRefCell, SingleThreadRefMut};

#[derive(Eq, PartialEq, Debug)]
struct True;
#[derive(Eq, PartialEq, Debug)]
struct False;

trait SendCheckTrait {
    const IS_SEND: False = False;
}

impl<T: ?Sized> SendCheckTrait for T {}

struct Wrapper<T: ?Sized>(PhantomData<T>);

#[allow(dead_code)]
impl<U: ?Sized + Send> Wrapper<U> {
    const IS_SEND: True = True;
}

#[test]
fn test_send() {
    // check function correct.

    assert_eq!(<Wrapper<i32>>::IS_SEND, True);
    assert_eq!(<Wrapper<Rc<i32>>>::IS_SEND, False);

    assert_eq!(<Wrapper<SingleThreadCell<i32>>>::IS_SEND, True);
    assert_eq!(<Wrapper<SingleThreadRefCell<i32>>>::IS_SEND, True);

    assert_eq!(<Wrapper<SingleThreadCell<Rc<()>>>>::IS_SEND, False);
    assert_eq!(<Wrapper<SingleThreadRefCell<Rc<()>>>>::IS_SEND, False);

    assert_eq!(<Wrapper<SingleThreadRef>>::IS_SEND, False);
    assert_eq!(<Wrapper<SingleThreadRefMut>>::IS_SEND, False);
}
