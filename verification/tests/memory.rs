use avr_sim::device::DataLayout;
use avr_sim::error::Error;
use avr_sim::memory::{DataMemory, Memory};

fn data() -> DataMemory {
    let mut data = DataMemory::new();
    data.resize(&DataLayout { registers: 32, io: 64, ram: 2048, flash_words: 0, eeprom: 0 });
    data
}

#[test]
fn an_empty_memory() {
    let memory = Memory::new();
    assert_eq!(memory.flash.len(), 0);
    assert_eq!(memory.eeprom.len(), 0);
    assert_eq!(memory.program_couter, 0);
    assert_eq!(memory.data.get(0), None);
    assert_eq!(
        memory.fetch().unwrap_err(),
        Error::InvalidAddress { address: 0 }
    );
}

#[test]
fn one_index_over_three_regions() {
    let mut data = data();
    for index in 0..2144usize {
        assert_eq!(data.set(index, (index % 251) as u8), Ok(()));
    }
    for index in 0..32usize {
        assert_eq!(data.registers[index], (index % 251) as u8);
        assert_eq!(data.get(index), Some(data.registers[index]));
    }
    for index in 32..96usize {
        assert_eq!(data.io.data[index - 32], (index % 251) as u8);
        assert_eq!(data.get(index), Some(data.io.data[index - 32]));
    }
    for index in 96..2144usize {
        assert_eq!(data.ram[index - 96], (index % 251) as u8);
        assert_eq!(data.get(index), Some(data.ram[index - 96]));
    }
    assert_eq!(data.registers.len() + data.io.data.len() + data.ram.len(), 2144);
}

#[test]
fn an_index_behind_the_ram_is_nothing() {
    let mut data = data();
    assert_eq!(data.get(2143), Some(0));
    assert_eq!(data.get(2144), None);
    assert_eq!(data.get(usize::MAX), None);
    assert_eq!(data.set(2144, 1), Err(Error::InvalidAddress { address: 2144 }));
    assert_eq!(data.set(usize::MAX, 1), Err(Error::InvalidAddress { address: usize::MAX as u64 }));
    assert!(data.registers.iter().chain(&data.io.data).chain(&data.ram).all(|b| *b == 0));
}

#[test]
fn a_write_to_a_watched_offset_raises_the_status() {
    let mut data = data();
    data.io.watchlist = vec![5, 9];
    assert!(!data.io.write_status);
    // not watched
    data.io.write(4, 1).unwrap();
    assert!(!data.io.write_status);
    // a register and a byte of RAM with the number of a watched offset
    data.set(5, 1).unwrap();
    data.set(96 + 5, 1).unwrap();
    assert!(!data.io.write_status);
    // watched
    data.io.write(5, 7).unwrap();
    assert!(data.io.write_status);
    assert_eq!(data.io.data[5], 7);
    // it stays up until it is lowered
    data.io.write(4, 2).unwrap();
    assert!(data.io.write_status);
    assert_eq!(data.io.read(4), Some(2));
    data.io.clear_write_status();
    assert!(!data.io.write_status);
    // through the one index of the data space
    data.set(32 + 9, 3).unwrap();
    assert!(data.io.write_status);
    data.io.clear_write_status();
    assert!(!data.io.is_watched(4));
    assert!(data.io.is_watched(9));
    // outside the region nothing is written and nothing is raised
    assert_eq!(data.io.write(64, 1), Err(Error::InvalidAddress { address: 64 }));
    assert!(!data.io.write_status);
    assert_eq!(data.io.read(64), None);
}
