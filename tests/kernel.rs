use microvm::boot::{BootError, X86BootLoaderConfig, BOOT_LOADER_SP};
use microvm::kernel::{load_elf_kernel, load_kernel, read_le};
use microvm::memory::{GuestMemory, MemoryError};

/// An ELF64 image with one program header per `(type, paddr, data)`.
fn elf(entry: u64, segments: &[(u32, u64, &[u8])]) -> Vec<u8> {
    let mut img = vec![0u8; 64];
    img[..4].copy_from_slice(&[0x7f, b'E', b'L', b'F']);
    img[4] = 2;
    img[5] = 1;
    img[24..32].copy_from_slice(&entry.to_le_bytes());
    img[32..40].copy_from_slice(&64u64.to_le_bytes());
    img[54..56].copy_from_slice(&56u16.to_le_bytes());
    img[56..58].copy_from_slice(&(segments.len() as u16).to_le_bytes());
    let mut data_off = 64 + 56 * segments.len() as u64;
    let mut data = Vec::new();
    for (kind, paddr, bytes) in segments {
        let mut ph = vec![0u8; 56];
        ph[0..4].copy_from_slice(&kind.to_le_bytes());
        ph[8..16].copy_from_slice(&data_off.to_le_bytes());
        ph[24..32].copy_from_slice(&paddr.to_le_bytes());
        ph[32..40].copy_from_slice(&(bytes.len() as u64).to_le_bytes());
        img.extend_from_slice(&ph);
        data.extend_from_slice(bytes);
        data_off += bytes.len() as u64;
    }
    img.extend_from_slice(&data);
    img
}

fn memory() -> GuestMemory {
    let mut m = GuestMemory::new(0x2000_0000);
    m.add_ram_region(0, 0x1000_0000).unwrap();
    m
}

#[test]
fn little_endian_fields() {
    let b = [0x78, 0x56, 0x34, 0x12, 0xff];
    assert_eq!(read_le(&b, 0, 4), 0x1234_5678);
    assert_eq!(read_le(&b, 3, 2), 0xff12);
    assert_eq!(read_le(&b, 2, 0), 0);
}

#[test]
fn loads_segments_at_physical_addresses() {
    let img = elf(0x100_0000, &[(1, 0x100_0000, b"kernel text"), (4, 0x200_0000, b"note"), (1, 0x110_0000, b"data")]);
    let mut m = memory();
    assert_eq!(load_elf_kernel(&img, &mut m), Ok(0x100_0000));
    assert_eq!(m.read(0x100_0000, 11).unwrap(), b"kernel text".to_vec());
    assert_eq!(m.read(0x110_0000, 4).unwrap(), b"data".to_vec());
    // a segment that is not loadable is not copied
    assert_eq!(m.read(0x200_0000, 4).unwrap(), vec![0; 4]);
}

#[test]
fn refuses_malformed_images() {
    let mut m = memory();
    assert_eq!(load_elf_kernel(b"not an elf", &mut m), Err(BootError::InvalidKernel));
    let mut img = elf(0x100_0000, &[(1, 0x100_0000, b"abc")]);
    img[4] = 1; // 32-bit
    assert_eq!(load_elf_kernel(&img, &mut m), Err(BootError::InvalidKernel));
    let mut img = elf(0x100_0000, &[(1, 0x100_0000, b"abc")]);
    img.truncate(img.len() - 1); // segment data cut short
    assert_eq!(load_elf_kernel(&img, &mut m), Err(BootError::InvalidKernel));
    let mut img = elf(0x100_0000, &[(1, 0x100_0000, b"abc")]);
    img[54] = 40; // program header entries too small
    assert_eq!(load_elf_kernel(&img, &mut m), Err(BootError::InvalidKernel));
    let img = elf(0x100_0000, &[(1, 0x3000_0000, b"abc")]);
    assert_eq!(load_elf_kernel(&img, &mut m), Err(BootError::Memory(MemoryError::OutOfBounds)));
}

#[test]
fn whole_boot_layout_from_kernel_image() {
    let img = elf(0x100_0000, &[(1, 0x100_0000, b"kernel")]);
    let mut m = memory();
    let config = X86BootLoaderConfig {
        initrd_size: Some(0x1_0000),
        kernel_cmdline: String::from("this_is_a_piece_of_test_string"),
        cpu_count: 2,
    };
    let l = load_kernel(&img, &config, &mut m).unwrap();
    assert_eq!(l.kernel_start, 0x100_0000);
    assert_eq!(l.kernel_sp, BOOT_LOADER_SP);
    assert_eq!(l.initrd_start, 0x0fff_0000);
    assert_eq!(m.read(0x100_0000, 6).unwrap(), b"kernel".to_vec());
}

