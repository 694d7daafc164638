use narvi::extensions::Extensions;
use narvi::hart::{Hart, HartError};

const S0: u8 = 8;
const S1: u8 = 9;
const S2: u8 = 18;

fn m_extensions() -> Extensions {
    Extensions { m: true, a: false, c: false, f: false, d: false }
}

#[test]
fn mul1() -> Result<(), HartError> {
    let mut hart = Hart::from_extensions(&m_extensions(), 0);

    hart.set_reg(S0, u64::MAX)?;
    hart.set_reg(S1, u64::MAX)?;

    let inst = 0x02848933;

    assert!(hart.execute_m(inst).is_ok());
    assert_eq!(hart.get_reg(S2)?, 1);

    Ok(())
}

#[test]
fn mul2() -> Result<(), HartError> {
    let mut hart = Hart::from_extensions(&m_extensions(), 0);

    hart.set_reg(S0, -1i64 as u64)?;
    hart.set_reg(S1, -1i64 as u64)?;

    let inst = 0x02848933;

    assert!(hart.execute_m(inst).is_ok());
    assert_eq!(hart.get_reg(S2)?, 1);

    Ok(())
}

#[test]
fn mulh1() -> Result<(), HartError> {
    let mut hart = Hart::from_extensions(&m_extensions(), 0);

    hart.set_reg(S0, 0x80000000000000)?;
    hart.set_reg(S1, (-0x80000000000000i64) as u64)?;

    let inst = 0x02941933;

    assert!(hart.execute_m(inst).is_ok());
    assert_eq!(hart.get_reg(S2)?, 0xFFFFC00000000000);

    Ok(())
}

#[test]
fn mulhsu1() -> Result<(), HartError> {
    let mut hart = Hart::from_extensions(&m_extensions(), 0);

    hart.set_reg(S0, 0x80000000000000)?;
    hart.set_reg(S1, (-0x80000000000000i64) as u64)?;

    let inst = 0x02942933;

    assert!(hart.execute_m(inst).is_ok());
    assert_eq!(hart.get_reg(S2)?, 0x7FC00000000000);

    Ok(())
}

#[test]
fn mulhsu2() -> Result<(), HartError> {
    let mut hart = Hart::from_extensions(&m_extensions(), 0);

    hart.set_reg(S0, (-0x80000000000000i64) as u64)?;
    hart.set_reg(S1, 0x80000000000000)?;

    let inst = 0x02942933;

    assert!(hart.execute_m(inst).is_ok());
    assert_eq!(hart.get_reg(S2)?, 0xFFFFC00000000000);

    Ok(())
}

#[test]
fn mulhu1() -> Result<(), HartError> {
    let mut hart = Hart::from_extensions(&m_extensions(), 0);

    hart.set_reg(S0, 0x80000000000000)?;
    hart.set_reg(S1, (-0x80000000000000i64) as u64)?;

    let inst = 0x02943933;

    assert!(hart.execute_m(inst).is_ok());
    assert_eq!(hart.get_reg(S2)?, 0x7FC00000000000);

    Ok(())
}

#[test]
fn div1() -> Result<(), HartError> {
    let mut hart = Hart::from_extensions(&m_extensions(), 0);

    hart.set_reg(S0, 0x80000000000000)?;
    hart.set_reg(S1, (-0x80000000000000i64) as u64)?;

    let inst = 0x2944933;

    assert!(hart.execute_m(inst).is_ok());
    assert_eq!(hart.get_reg(S2)?, 0xFFFFFFFFFFFFFFFF);

    Ok(())
}

#[test]
fn divu1() -> Result<(), HartError> {
    let mut hart = Hart::from_extensions(&m_extensions(), 0);

    hart.set_reg(S0, (-0x80000000000000i64) as u64)?;
    hart.set_reg(S1, 0xF)?;

    let inst = 0x2945933;

    assert!(hart.execute_m(inst).is_ok());
    assert_eq!(hart.get_reg(S2)?, 0x1108888888888888);

    Ok(())
}

#[test]
fn rem1() -> Result<(), HartError> {
    let mut hart = Hart::from_extensions(&m_extensions(), 0);

    hart.set_reg(S0, 0x5)?;
    hart.set_reg(S1, 0x4)?;

    let inst = 0x2946933;

    assert!(hart.execute_m(inst).is_ok());
    assert_eq!(hart.get_reg(S2)?, 0x1);

    Ok(())
}

#[test]
fn rem2() -> Result<(), HartError> {
    let mut hart = Hart::from_extensions(&m_extensions(), 0);

    hart.set_reg(S0, (-0x5i64) as u64)?;
    hart.set_reg(S1, 0x4)?;

    let inst = 0x2946933;

    assert!(hart.execute_m(inst).is_ok());
    assert_eq!(hart.get_reg(S2)?, 0xFFFFFFFFFFFFFFFF);

    Ok(())
}

#[test]
fn rem3() -> Result<(), HartError> {
    let mut hart = Hart::from_extensions(&m_extensions(), 0);

    hart.set_reg(S0, 0x5)?;
    hart.set_reg(S1, (-0x4i64) as u64)?;

    let inst = 0x2946933;

    assert!(hart.execute_m(inst).is_ok());
    assert_eq!(hart.get_reg(S2)?, 0x1);

    Ok(())
}

#[test]
fn mulw1() -> Result<(), HartError> {
    let mut hart = Hart::from_extensions(&m_extensions(), 0);

    hart.set_reg(S0, 0x10000)?;
    hart.set_reg(S1, 0x10000)?;

    let inst = 0x294093B;

    assert!(hart.execute_m(inst).is_ok());
    assert_eq!(hart.get_reg(S2)?, 0x0);

    Ok(())
}

#[test]
fn mulw2() -> Result<(), HartError> {
    let mut hart = Hart::from_extensions(&m_extensions(), 0);

    hart.set_reg(S0, 0x1000)?;
    hart.set_reg(S1, (-0x1000i64) as u64)?;

    let inst = 0x294093B;

    assert!(hart.execute_m(inst).is_ok());
    assert_eq!(hart.get_reg(S2)?, 0xFFFFFFFFFF000000);

    Ok(())
}

#[test]
fn divw1() -> Result<(), HartError> {
    let mut hart = Hart::from_extensions(&m_extensions(), 0);

    hart.set_reg(S0, 0x1)?;
    hart.set_reg(S1, (-0x1i64) as u64)?;

    let inst = 0x294493B;

    assert!(hart.execute_m(inst).is_ok());
    assert_eq!(hart.get_reg(S2)?, 0xFFFFFFFFFFFFFFFF);

    Ok(())
}

#[test]
fn divw2() -> Result<(), HartError> {
    let mut hart = Hart::from_extensions(&m_extensions(), 0);

    hart.set_reg(S0, 0xFFFFFFFF00000004)?;
    hart.set_reg(S1, 0xFFFFFFFF00000002)?;

    let inst = 0x294493B;

    assert!(hart.execute_m(inst).is_ok());
    assert_eq!(hart.get_reg(S2)?, 0x2);

    Ok(())
}

#[test]
fn divuw1() -> Result<(), HartError> {
    let mut hart = Hart::from_extensions(&m_extensions(), 0);

    hart.set_reg(S0, (-0x1i64) as u64)?;
    hart.set_reg(S1, 0x1)?;

    let inst = 0x294593B;

    assert!(hart.execute_m(inst).is_ok());
    assert_eq!(hart.get_reg(S2)?, 0xFFFFFFFFFFFFFFFF);

    Ok(())
}

#[test]
fn divuw2() -> Result<(), HartError> {
    let mut hart = Hart::from_extensions(&m_extensions(), 0);

    hart.set_reg(S0, 0xFFFFFFFFFFFFFFFF)?;
    hart.set_reg(S1, 0xFFFFFFFF00000001)?;

    let inst = 0x294593B;

    assert!(hart.execute_m(inst).is_ok());
    assert_eq!(hart.get_reg(S2)?, 0xFFFFFFFFFFFFFFFF);

    Ok(())
}

#[test]
fn remw1() -> Result<(), HartError> {
    let mut hart = Hart::from_extensions(&m_extensions(), 0);

    hart.set_reg(S0, (-0x5i64) as u64)?;
    hart.set_reg(S1, 0x4)?;

    let inst = 0x294693B;

    assert!(hart.execute_m(inst).is_ok());
    assert_eq!(hart.get_reg(S2)?, 0xFFFFFFFFFFFFFFFF);

    Ok(())
}

#[test]
fn remw2() -> Result<(), HartError> {
    let mut hart = Hart::from_extensions(&m_extensions(), 0);

    hart.set_reg(S0, (-0x5i64) as u64)?;
    hart.set_reg(S1, 0xFFFFFFFF00000004)?;

    let inst = 0x294693B;

    assert!(hart.execute_m(inst).is_ok());
    assert_eq!(hart.get_reg(S2)?, 0xFFFFFFFFFFFFFFFF);

    Ok(())
}

#[test]
fn remuw1() -> Result<(), HartError> {
    let mut hart = Hart::from_extensions(&m_extensions(), 0);

    hart.set_reg(S0, 0xFFFFFFFF00000005)?;
    hart.set_reg(S1, 0xFFFFFFFF00000004)?;

    let inst = 0x294793B;

    assert!(hart.execute_m(inst).is_ok());
    assert_eq!(hart.get_reg(S2)?, 0x1);

    Ok(())
}
