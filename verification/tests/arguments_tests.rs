use zork::arguments::{add_direct_module_interfaces_dependencies, Argument, Arguments};

#[test]
fn test_clang_add_direct_module_ifc_deps() {
    let args = add_direct_module_interfaces_dependencies(&vec![String::from("math.numbers")], "out", 19);

    assert_eq!(
        args,
        Arguments::from_vec(vec![
            "-fmodule-file=math.numbers=out/clang/modules/interfaces/math.numbers.pcm".into()
        ])
    );

    let args = add_direct_module_interfaces_dependencies(&vec![String::from("math.numbers")], "out", 15);
    assert_eq!(
        args,
        Arguments::from_vec(vec![Argument::from(
            "-fmodule-file=out/clang/modules/interfaces/math.numbers.pcm"
        )])
    )
}
