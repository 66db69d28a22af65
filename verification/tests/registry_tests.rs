use class_reader::class_file_method::ClassFileMethod;
use class_reader::method_descriptor::MethodDescriptor;
use class_reader::method_flags::MethodFlags;
use class_reader::native_methods_registry::NativeMethodsRegistry;

fn plain_method(name: &str, descriptor: &str) -> ClassFileMethod {
    ClassFileMethod {
        flags: MethodFlags::empty(),
        name: name.to_string(),
        type_descriptor: descriptor.to_string(),
        parsed_type_descriptor: MethodDescriptor {
            parameters: vec![],
            return_type: None,
        },
        attributes: vec![],
        code: None,
        deprecated: false,
        thrown_exceptions: vec![],
    }
}

#[test]
fn registers_and_finds_callbacks() {
    let mut registry: NativeMethodsRegistry<i32> = NativeMethodsRegistry::default();
    assert_eq!(None, registry.get("java/lang/System", "exit", "(I)V"));
    registry.register("java/lang/System", "exit", "(I)V", 1);
    registry.register("java/lang/System", "gc", "()V", 2);
    assert_eq!(Some(1), registry.get("java/lang/System", "exit", "(I)V"));
    assert_eq!(Some(2), registry.get("java/lang/System", "gc", "()V"));
    assert_eq!(None, registry.get("java/lang/System", "exit", "()V"));
    assert_eq!(None, registry.get("java/lang/Runtime", "exit", "(I)V"));
}

#[test]
fn registering_again_replaces_the_callback() {
    let mut registry: NativeMethodsRegistry<i32> = NativeMethodsRegistry::default();
    registry.register("A", "m", "()V", 1);
    registry.register("A", "m", "()V", 9);
    assert_eq!(Some(9), registry.get("A", "m", "()V"));
}

#[test]
fn temp_print_hook_answers_the_rjvm_namespace() {
    let mut registry: NativeMethodsRegistry<i32> = NativeMethodsRegistry::default();
    assert_eq!(None, registry.get("rjvm/SomeTest", "tempPrint", "(I)V"));
    registry.register_temp_print(42);
    assert_eq!(Some(42), registry.get("rjvm/SomeTest", "tempPrint", "(I)V"));
    assert_eq!(Some(42), registry.get("rjvm/Other", "tempPrint", "()V"));
    // Outside the namespace, or under another name, the map decides.
    assert_eq!(None, registry.get("other/SomeTest", "tempPrint", "(I)V"));
    assert_eq!(None, registry.get("rjvm/SomeTest", "print", "(I)V"));
}

#[test]
fn get_method_uses_the_decoded_method_identity() {
    let mut registry: NativeMethodsRegistry<i32> = NativeMethodsRegistry::default();
    registry.register("Foo", "run", "()V", 5);
    let method = plain_method("run", "()V");
    assert_eq!(Some(5), registry.get_method("Foo", &method));
    assert_eq!(None, registry.get_method("Bar", &method));
    registry.register_temp_print(8);
    let print = plain_method("tempPrint", "(I)V");
    assert_eq!(Some(8), registry.get_method("rjvm/SomeTest", &print));
}
