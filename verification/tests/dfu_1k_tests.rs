//! Tests with a one-kilobyte maximum transfer size.

use usbd_dfu::{
    functional_descriptor, DFUClass, DFUConfig, DFUManifestationError, DFUMemError, DFUMemIO,
    InResponse, Recipient, Request, RequestType,
};

pub const DFU_IDLE: u8 = 2;

const K1_TESTMEMSIZE: usize = 64 * 1024;
const K1_TESTMEM_BASE: u32 = 0x0200_0000;

pub struct LargeBlockMem {
    memory: Vec<u8>,
    buffer_len: usize,
}

impl LargeBlockMem {
    fn new() -> Self {
        let mut buf = vec![0u8; K1_TESTMEMSIZE];

        // Initialize memory as: [0,0, 1,0, 2,0, ... 255,0, 0,1, ...]
        for (i, v) in buf.iter_mut().enumerate() {
            if i & 1 == 1 {
                *v = ((i >> 9) & 0xff) as u8;
            } else {
                *v = ((i >> 1) & 0xff) as u8;
            }
        }
        Self {
            memory: buf,
            buffer_len: 1024,
        }
    }
}

impl DFUMemIO for LargeBlockMem {
    fn read_block(&mut self, address: u32, length: usize) -> Result<Vec<u8>, DFUMemError> {
        if address < K1_TESTMEM_BASE {
            return Err(DFUMemError::Address);
        }

        let from = (address - K1_TESTMEM_BASE) as usize;
        if from >= K1_TESTMEMSIZE {
            return Ok(vec![]);
        }

        let len = std::cmp::min(self.buffer_len, K1_TESTMEMSIZE - from);
        let take = std::cmp::min(length, len);
        Ok(self.memory[from..from + take].to_vec())
    }

    fn erase_block(&mut self, _address: u32) -> Result<(), DFUMemError> {
        Ok(())
    }

    fn erase_all_blocks(&mut self) -> Result<(), DFUMemError> {
        Ok(())
    }

    fn store_write_buffer(&mut self, _src: &[u8]) -> Result<(), ()> {
        Ok(())
    }

    fn program_block(&mut self, _address: u32, _length: usize) -> Result<(), DFUMemError> {
        Ok(())
    }

    fn manifestation(&mut self) -> Result<(), DFUManifestationError> {
        panic!("emulate device reset");
    }
}

fn k1_config() -> DFUConfig {
    DFUConfig {
        initial_address_pointer: K1_TESTMEM_BASE,
        has_download: true,
        has_upload: true,
        manifestation_tolerant: false,
        program_time_ms: 50,
        erase_time_ms: 0x1ff,
        full_erase_time_ms: 0x2_0304,
        manifestation_time_ms: 1,
        detach_timeout: 0x1122,
        transfer_size: 1024,
    }
}

fn k1_make_dfu() -> DFUClass<LargeBlockMem> {
    DFUClass::new(k1_config(), 0, LargeBlockMem::new())
}

fn k1_ctl_read(
    dfu: &mut DFUClass<LargeBlockMem>,
    req: u8,
    value: u16,
    length: u16,
) -> Result<Vec<u8>, ()> {
    let r = dfu.control_in(&Request {
        request_type: RequestType::Class,
        recipient: Recipient::Interface,
        request: req,
        value,
        index: 0,
        length,
    });
    dfu.poll();
    match r {
        InResponse::Accepted(v) => Ok(v),
        InResponse::Rejected => Err(()),
        InResponse::Ignored => panic!("request ignored"),
    }
}

fn k1_upload(
    dfu: &mut DFUClass<LargeBlockMem>,
    block_num: u16,
    length: u16,
) -> Result<Vec<u8>, ()> {
    k1_ctl_read(dfu, 0x2, block_num, length)
}

fn k1_get_status(dfu: &mut DFUClass<LargeBlockMem>) -> Result<Vec<u8>, ()> {
    k1_ctl_read(dfu, 0x3, 0, 6)
}

#[test]
fn test_1k_get_configuration() {
    let cfg = k1_config();

    // dfu functional descriptor
    let desc = functional_descriptor(&cfg);
    assert_eq!(
        desc,
        [
            9, 0x21,
            0b1011, // bitWillDetach, not bitManifestationTolerant, bitCanUpload, bitCanDnload
            0x22, 0x11, // detach timeout
            0, 4, // transfer size
            0x1a, 1, // dfu version = 1.1a
        ]
    );
}

#[test]
fn test_large_blocks_upload() {
    let mut dfu = k1_make_dfu();

    /* Get Status */
    let vec = k1_get_status(&mut dfu).expect("vec");
    assert_eq!(vec.len(), 6);
    assert_eq!(&vec[0..6], &[0, 0, 0, 0, 2, 0]); // dfuIdle

    /* Upload block 2 (offset 0) - 1k transfer == max_transfer -> 1k */
    let vec = k1_upload(&mut dfu, 2, 1024).expect("len");
    assert_eq!(vec.len(), 1024);
    assert_eq!(&vec[0..10], &[0, 0, 1, 0, 2, 0, 3, 0, 4, 0]);
    assert_eq!(&vec[120..128], &[60, 0, 61, 0, 62, 0, 63, 0]);
    assert_eq!(&vec[1016..1024], &[252, 1, 253, 1, 254, 1, 255, 1]);

    /* Upload block 2 (offset 0) - 512b transfer < max_transfer -> 512b */
    let vec = k1_upload(&mut dfu, 2, 512).expect("len");
    assert_eq!(vec.len(), 512);
    assert_eq!(&vec[0..10], &[0, 0, 1, 0, 2, 0, 3, 0, 4, 0]);
    assert_eq!(&vec[120..128], &[60, 0, 61, 0, 62, 0, 63, 0]);
    assert_eq!(&vec[504..512], &[252, 0, 253, 0, 254, 0, 255, 0]);

    /* Upload block 2 (offset 0) - 2k transfer > max_transfer -> 1k */
    let vec = k1_upload(&mut dfu, 2, 2048).expect("len");
    assert_eq!(vec.len(), 1024);
    assert_eq!(&vec[0..10], &[0, 0, 1, 0, 2, 0, 3, 0, 4, 0]);
    assert_eq!(&vec[120..128], &[60, 0, 61, 0, 62, 0, 63, 0]);
    assert_eq!(&vec[1016..1024], &[252, 1, 253, 1, 254, 1, 255, 1]);
}
