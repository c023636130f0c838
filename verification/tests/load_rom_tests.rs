use hachi::machine::LoadError;
use hachi::Chip8;

#[test]
fn test_load_rom_from_reader_success() {
    // Create test ROM data
    let test_data = [0xA2, 0x2A, 0x60, 0x0C, 0x61, 0x08];

    let mut chip8 = Chip8::default();
    let initial_pc = chip8.pc;

    // Load the test ROM
    let result = chip8.load_rom(&test_data);
    assert!(result.is_ok(), "Loading ROM should succeed");

    // Verify the ROM was loaded at the correct memory location
    for (i, &byte) in test_data.iter().enumerate() {
        assert_eq!(
            chip8.memory[initial_pc as usize + i],
            byte,
            "Byte at position {} should be 0x{:02X}",
            i,
            byte
        );
    }
}

#[test]
fn test_load_rom_from_reader_preserves_other_memory() {
    // Create test ROM data
    let test_data = [0xFF, 0xEE];

    let mut chip8 = Chip8::default();
    let initial_pc = chip8.pc;

    // Set some memory before loading ROM
    chip8.memory[0] = 0xAA;
    chip8.memory[4095] = 0xBB;

    // Load the test ROM
    let result = chip8.load_rom(&test_data);
    assert!(result.is_ok(), "Loading ROM should succeed");

    // Verify ROM was loaded correctly
    assert_eq!(chip8.memory[initial_pc as usize], 0xFF);
    assert_eq!(chip8.memory[initial_pc as usize + 1], 0xEE);

    // Verify other memory was preserved
    assert_eq!(chip8.memory[0], 0xAA);
    assert_eq!(chip8.memory[4095], 0xBB);
}

#[test]
fn test_load_rom_from_reader_empty_data() {
    // Test with empty ROM data
    let mut chip8 = Chip8::default();
    let initial_memory = chip8.memory;

    // Load empty ROM
    let result = chip8.load_rom(&[]);
    assert!(result.is_ok(), "Loading empty ROM should succeed");

    // Memory should be unchanged
    assert_eq!(chip8.memory, initial_memory);
}

#[test]
fn test_load_rom_from_reader_memory_overflow() {
    // Create ROM data that would overflow memory
    let oversized_data = vec![0xFF; 4096]; // This will definitely overflow

    let mut chip8 = Chip8::default();

    // This should fail with memory overflow error
    let result = chip8.load_rom(&oversized_data);
    assert!(result.is_err(), "Loading oversized ROM should fail");

    let error = result.unwrap_err();
    assert_eq!(error, LoadError::FileTooLarge, "Error should be FileTooLarge, got: {:?}", error);
    assert!(
        error.message().contains("ROM too large"),
        "Error message should contain 'ROM too large', got: {}",
        error.message()
    );
}

#[test]
fn load_rom_fills_memory_exactly_to_the_end() {
    // 4096 - 0x200 = 3584 bytes is the largest image that fits.
    let data = vec![0x5A; 3584];

    let mut chip8 = Chip8::default();
    let result = chip8.load_rom(&data);
    assert!(result.is_ok(), "An image of exactly 3584 bytes should fit");
    assert_eq!(chip8.memory[0x200], 0x5A);
    assert_eq!(chip8.memory[4095], 0x5A);

    let mut chip8 = Chip8::default();
    let too_big = vec![0x5A; 3585];
    let result = chip8.load_rom(&too_big);
    assert_eq!(result.unwrap_err(), LoadError::FileTooLarge, "One byte more must not fit");
}

#[test]
fn load_rom_failure_keeps_the_prefix_that_fit() {
    let oversized_data = vec![0xCD; 4000];

    let mut chip8 = Chip8::default();
    let result = chip8.load_rom(&oversized_data);
    assert!(result.is_err());

    // The 3584 bytes that fit were copied and stay in place.
    assert_eq!(chip8.memory[0x200], 0xCD);
    assert_eq!(chip8.memory[4095], 0xCD);
    // Memory below the program area is untouched.
    assert_eq!(chip8.memory[0x1FF], 0);
}

#[test]
fn load_success_leaves_the_rest_of_memory_zero() {
    let image = [0xA2, 0x2A, 0x60, 0x0C, 0x61, 0x08];

    let mut chip8 = Chip8::default();
    chip8.load_rom(&image).expect("six bytes fit");

    for (i, &byte) in image.iter().enumerate() {
        assert_eq!(chip8.memory[0x200 + i], byte);
    }
    for addr in 0..4096 {
        let in_font = (0x50..0xA0).contains(&addr);
        let in_image = (0x200..0x206).contains(&addr);
        if !in_font && !in_image {
            assert_eq!(chip8.memory[addr], 0, "Memory at 0x{:03X} should stay zero", addr);
        }
    }
}
