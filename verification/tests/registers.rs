use i8080::registers::Registers;


#[test]
fn test_get_hl() {
    let mut reg = Registers::new();
    reg.h = 0x34;
    reg.l = 0x12;
    assert_eq!(reg.get_hl(), 0x3412);
}
