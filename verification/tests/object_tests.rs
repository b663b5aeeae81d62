use gubtool::core_object;
use gubtool::object;
use gubtool::utils_object;
use std::collections::VecDeque;

#[test]
fn shared_function_bytes_and_relocations() {
    let f = object::AsmFunction::new(
        "give_souls".to_string(),
        vec![1, 2, 3],
        vec![
            object::Relocation::new("a".to_string(), 4),
            object::Relocation::new("b".to_string(), 8),
            object::Relocation::new("a".to_string(), 12),
        ],
    );
    assert_eq!(f.get_bytes(), vec![1, 2, 3]);
    assert_eq!(f.reloc("a"), 4);
    assert_eq!(f.reloc("b"), 8);
}

#[test]
fn shared_folder_finds_first_by_name() {
    let folder = object::AsmFolder::new(vec![
        object::AsmFunction::new("x".to_string(), vec![1], vec![]),
        object::AsmFunction::new("y".to_string(), vec![2], vec![]),
        object::AsmFunction::new("y".to_string(), vec![3], vec![]),
    ]);
    assert_eq!(folder.get_function("y").get_bytes(), vec![2]);
}

#[test]
fn core_folder_lookup() {
    let folder = core_object::AsmFolder {
        functions: vec![core_object::AsmFunction {
            name: "faster_menu".to_string(),
            bytes: vec![0x90, 0xC3],
            relocations: vec![core_object::Relocation { symbol: "ret".to_string(), offset: 22 }],
        }],
    };
    let f = folder.get_function("faster_menu");
    assert_eq!(f.bytes, vec![0x90, 0xC3]);
    assert_eq!(f.reloc("ret"), 22);
}

#[test]
fn utils_relocations_are_consumed_in_order() {
    let mut relocs = VecDeque::new();
    relocs.push_back(utils_object::Relocation::new("first".to_string(), 3));
    relocs.push_back(utils_object::Relocation::new("second".to_string(), 9));
    relocs.push_back(utils_object::Relocation::new("first".to_string(), 15));
    let mut f = utils_object::AsmFunction::new("f".to_string(), vec![7, 7], relocs);
    assert_eq!(f.reloc("first"), 3);
    assert_eq!(f.reloc_find("first"), 15);
    assert_eq!(f.reloc("second"), 9);
    assert_eq!(f.take_bytes(), vec![7, 7]);
    assert_eq!(f.take_bytes(), Vec::<u8>::new());
}

#[test]
fn utils_folder_keeps_last_of_a_name() {
    let folder = utils_object::AsmFolder::new(vec![
        utils_object::AsmFunction::new("dup".to_string(), vec![1], VecDeque::new()),
        utils_object::AsmFunction::new("other".to_string(), vec![2], VecDeque::new()),
        utils_object::AsmFunction::new("dup".to_string(), vec![3], VecDeque::new()),
    ]);
    let mut f = folder.get_function("dup");
    assert_eq!(f.take_bytes(), vec![3]);
    let mut g = folder.get_function("other");
    assert_eq!(g.take_bytes(), vec![2]);
}
