use libffi::high::types::CType;
use libffi::middle::cif::argument_count;
use libffi::middle::{Abi, Cif, Error, Type, MAX_ARGS};

fn shared_between_threads<T: Send + Sync>() {}

#[test]
fn two_ints_to_int() {
    let cif = Cif::new(Abi::Default, vec![Type::I32, Type::I32], Type::I32).unwrap();
    assert_eq!(cif.nargs(), 2);
    assert_eq!(cif.args(), &vec![Type::I32, Type::I32]);
    assert_eq!(cif.result(), &Type::I32);
    assert_eq!(cif.abi(), Abi::Default);
}

#[test]
fn arguments_keep_their_count_and_order() {
    let args = vec![
        Type::U8,
        Type::I64,
        Type::F32,
        Type::Pointer,
        Type::U16,
        Type::F64,
        Type::Usize,
        Type::I8,
    ];
    let cif = Cif::new(Abi::Default, args.clone(), Type::Void).unwrap();
    assert_eq!(cif.nargs(), 8);
    assert_eq!(cif.args(), &args);
    assert_eq!(cif.args()[3], Type::Pointer);
    assert_eq!(cif.result(), &Type::Void);
}

#[test]
fn every_primitive_can_be_an_argument_and_a_result() {
    let primitives = vec![
        Type::Void,
        Type::U8,
        Type::I8,
        Type::U16,
        Type::I16,
        Type::U32,
        Type::I32,
        Type::U64,
        Type::I64,
        Type::F32,
        Type::F64,
        Type::Usize,
        Type::Isize,
        Type::Pointer,
    ];
    for primitive in &primitives {
        let cif = Cif::new(Abi::Default, vec![primitive.clone()], primitive.clone()).unwrap();
        assert_eq!(cif.nargs(), 1);
        assert_eq!(&cif.args()[0], primitive);
        assert_eq!(cif.result(), primitive);
    }
    let cif = Cif::new(Abi::Default, primitives.clone(), Type::I32).unwrap();
    assert_eq!(cif.nargs(), 14);
    assert_eq!(cif.args(), &primitives);
}

#[test]
fn no_arguments() {
    let cif = Cif::new(Abi::Default, Vec::new(), Type::Void).unwrap();
    assert_eq!(cif.nargs(), 0);
    assert!(cif.args().is_empty());
}

#[test]
fn many_arguments() {
    let args = vec![Type::U64; 1000];
    let cif = Cif::new(Abi::Default, args, Type::U64).unwrap();
    assert_eq!(cif.nargs(), 1000);
    assert!(cif.args().iter().all(|arg| *arg == Type::U64));
}

#[test]
fn pointer_in_pointer_out() {
    let cif = Cif::new(Abi::Default, vec![Type::Pointer], Type::Pointer).unwrap();
    assert_eq!(cif.args(), &vec![Type::Pointer]);
    assert_eq!(cif.result(), &Type::Pointer);
}

#[test]
fn the_calling_convention_is_carried() {
    let cif = Cif::new(Abi::Other(7), vec![Type::I32], Type::I32).unwrap();
    assert_eq!(cif.abi(), Abi::Other(7));
    assert_ne!(cif.abi(), Abi::Default);
    assert_ne!(cif.abi(), Abi::Other(8));
}

#[test]
fn structures_can_be_passed_and_returned() {
    let point = Type::Structure(vec![Type::F64, Type::F64]);
    let cif = Cif::new(Abi::Default, vec![point.clone(), Type::I32], point.clone()).unwrap();
    assert_eq!(cif.nargs(), 2);
    assert_eq!(cif.args()[0], point);
    assert_eq!(cif.result(), &point);
}

#[test]
fn an_argument_without_layout_is_refused() {
    let empty = Type::Structure(Vec::new());
    let made = Cif::new(Abi::Default, vec![Type::I32, empty], Type::I32);
    assert_eq!(made.err(), Some(Error::Typedef));
}

#[test]
fn a_result_without_layout_is_refused() {
    let empty = Type::Structure(Vec::new());
    let made = Cif::new(Abi::Default, vec![Type::I32], empty);
    assert_eq!(made.err(), Some(Error::Typedef));
}

#[test]
fn a_nested_structure_without_layout_is_refused() {
    let bad = Type::Structure(vec![Type::U8, Type::Structure(vec![Type::Void])]);
    let made = Cif::new(Abi::Default, vec![bad], Type::Void);
    assert_eq!(made.err(), Some(Error::Typedef));
}

#[test]
fn the_largest_count_is_that_of_32_bits() {
    assert_eq!(MAX_ARGS, 4_294_967_295);
    assert_eq!(MAX_ARGS, u32::MAX as usize);
}

#[test]
fn counts_up_to_the_largest_are_kept() {
    assert_eq!(argument_count(0), Ok(0));
    assert_eq!(argument_count(2), Ok(2));
    assert_eq!(argument_count(MAX_ARGS - 1), Ok(u32::MAX - 1));
    assert_eq!(argument_count(MAX_ARGS), Ok(u32::MAX));
}

#[test]
fn counts_beyond_the_largest_are_refused() {
    assert_eq!(argument_count(MAX_ARGS + 1), Err(Error::ArgumentCount));
    assert_eq!(argument_count(usize::MAX), Err(Error::ArgumentCount));
}

#[test]
fn a_call_interface_from_typed_handles() {
    let args = vec![i32::reify().into_middle(), i32::reify().into_middle()];
    let cif = Cif::new(Abi::Default, args, i32::reify().into_middle()).unwrap();
    assert_eq!(cif.nargs(), 2);
    assert_eq!(cif.args(), &vec![Type::I32, Type::I32]);
    assert_eq!(cif.result(), &Type::I32);
    let cif = Cif::new(Abi::Default, Vec::new(), <()>::reify().into_middle()).unwrap();
    assert_eq!(cif.result(), &Type::Void);
}

fn identity_interface<T: CType>() -> Cif {
    let argument = T::reify().into_middle();
    let result = T::reify().into_middle();
    Cif::new(Abi::Default, vec![argument], result).unwrap()
}

fn takes_and_returns(cif: &Cif, descriptor: Type) -> bool {
    cif.nargs() == 1 && cif.args()[0] == descriptor && *cif.result() == descriptor
}

#[test]
fn identity_interface_for_every_reified_type() {
    assert!(takes_and_returns(&identity_interface::<u8>(), Type::U8));
    assert!(takes_and_returns(&identity_interface::<i8>(), Type::I8));
    assert!(takes_and_returns(&identity_interface::<u16>(), Type::U16));
    assert!(takes_and_returns(&identity_interface::<i16>(), Type::I16));
    assert!(takes_and_returns(&identity_interface::<u32>(), Type::U32));
    assert!(takes_and_returns(&identity_interface::<i32>(), Type::I32));
    assert!(takes_and_returns(&identity_interface::<u64>(), Type::U64));
    assert!(takes_and_returns(&identity_interface::<i64>(), Type::I64));
    assert!(takes_and_returns(&identity_interface::<usize>(), Type::Usize));
    assert!(takes_and_returns(&identity_interface::<isize>(), Type::Isize));
    assert!(takes_and_returns(&identity_interface::<()>(), Type::Void));
}

#[test]
fn call_interfaces_and_descriptors_can_be_shared() {
    shared_between_threads::<Cif>();
    shared_between_threads::<Type>();
}
