use class_reader::exception_table::ExceptionTable;
use class_reader::exception_table::ExceptionTableEntry;
use class_reader::program_counter::ProgramCounter;

#[test]
fn can_lookup_catch_handler() {
    let entry_1 = ExceptionTableEntry {
        range: ProgramCounter(0)..ProgramCounter(4),
        handler_pc: ProgramCounter(99),
        catch_class: None,
    };
    let entry_2 = ExceptionTableEntry {
        range: ProgramCounter(8)..ProgramCounter(14),
        handler_pc: ProgramCounter(88),
        catch_class: Some("java/lang/RuntimeException".to_string()),
    };
    let entry_3 = ExceptionTableEntry {
        range: ProgramCounter(13)..ProgramCounter(14),
        handler_pc: ProgramCounter(77),
        catch_class: Some("java/lang/ClassCastException".to_string()),
    };
    let table = ExceptionTable::new(vec![entry_1.clone(), entry_2.clone(), entry_3.clone()]);

    assert_eq!(vec![&entry_1], table.lookup(ProgramCounter(0)));
    assert_eq!(vec![&entry_1], table.lookup(ProgramCounter(1)));
    assert!(table.lookup(ProgramCounter(4)).is_empty());
    assert_eq!(vec![&entry_2], table.lookup(ProgramCounter(8)));
    assert_eq!(vec![&entry_2, &entry_3], table.lookup(ProgramCounter(13)));
    assert!(table.lookup(ProgramCounter(14)).is_empty());
}

#[test]
fn half_open_range_covers_start_and_not_end() {
    let entry = ExceptionTableEntry {
        range: ProgramCounter(0)..ProgramCounter(4),
        handler_pc: ProgramCounter(10),
        catch_class: None,
    };
    let table = ExceptionTable::new(vec![entry.clone()]);
    assert_eq!(vec![&entry], table.lookup(ProgramCounter(0)));
    assert_eq!(vec![&entry], table.lookup(ProgramCounter(3)));
    assert!(table.lookup(ProgramCounter(4)).is_empty());
    assert!(table.lookup(ProgramCounter(5)).is_empty());
}

#[test]
fn overlapping_entries_come_in_declaration_order() {
    let wide = ExceptionTableEntry {
        range: ProgramCounter(0)..ProgramCounter(20),
        handler_pc: ProgramCounter(50),
        catch_class: Some("A".to_string()),
    };
    let narrow = ExceptionTableEntry {
        range: ProgramCounter(5)..ProgramCounter(10),
        handler_pc: ProgramCounter(60),
        catch_class: Some("B".to_string()),
    };
    let table = ExceptionTable::new(vec![wide.clone(), narrow.clone()]);
    assert_eq!(vec![&wide, &narrow], table.lookup(ProgramCounter(7)));
    let reversed = ExceptionTable::new(vec![narrow.clone(), wide.clone()]);
    assert_eq!(vec![&narrow, &wide], reversed.lookup(ProgramCounter(7)));
}
