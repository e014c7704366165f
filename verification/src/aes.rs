//! The block cipher: 16-byte blocks under a 16-byte key, eleven round
//! keys grown from the cipher key, and the four state transformations of
//! each round.

use vstd::prelude::*;

verus! {

/// The substitution box.
pub open spec fn sbox_seq() -> Seq<u8> {
    seq![
        0x63, 0x7c, 0x77, 0x7b, 0xf2, 0x6b, 0x6f, 0xc5, 0x30, 0x01, 0x67, 0x2b, 0xfe, 0xd7,
        0xab, 0x76, 0xca, 0x82, 0xc9, 0x7d, 0xfa, 0x59, 0x47, 0xf0, 0xad, 0xd4, 0xa2, 0xaf,
        0x9c, 0xa4, 0x72, 0xc0, 0xb7, 0xfd, 0x93, 0x26, 0x36, 0x3f, 0xf7, 0xcc, 0x34, 0xa5,
        0xe5, 0xf1, 0x71, 0xd8, 0x31, 0x15, 0x04, 0xc7, 0x23, 0xc3, 0x18, 0x96, 0x05, 0x9a,
        0x07, 0x12, 0x80, 0xe2, 0xeb, 0x27, 0xb2, 0x75, 0x09, 0x83, 0x2c, 0x1a, 0x1b, 0x6e,
        0x5a, 0xa0, 0x52, 0x3b, 0xd6, 0xb3, 0x29, 0xe3, 0x2f, 0x84, 0x53, 0xd1, 0x00, 0xed,
        0x20, 0xfc, 0xb1, 0x5b, 0x6a, 0xcb, 0xbe, 0x39, 0x4a, 0x4c, 0x58, 0xcf, 0xd0, 0xef,
        0xaa, 0xfb, 0x43, 0x4d, 0x33, 0x85, 0x45, 0xf9, 0x02, 0x7f, 0x50, 0x3c, 0x9f, 0xa8,
        0x51, 0xa3, 0x40, 0x8f, 0x92, 0x9d, 0x38, 0xf5, 0xbc, 0xb6, 0xda, 0x21, 0x10, 0xff,
        0xf3, 0xd2, 0xcd, 0x0c, 0x13, 0xec, 0x5f, 0x97, 0x44, 0x17, 0xc4, 0xa7, 0x7e, 0x3d,
        0x64, 0x5d, 0x19, 0x73, 0x60, 0x81, 0x4f, 0xdc, 0x22, 0x2a, 0x90, 0x88, 0x46, 0xee,
        0xb8, 0x14, 0xde, 0x5e, 0x0b, 0xdb, 0xe0, 0x32, 0x3a, 0x0a, 0x49, 0x06, 0x24, 0x5c,
        0xc2, 0xd3, 0xac, 0x62, 0x91, 0x95, 0xe4, 0x79, 0xe7, 0xc8, 0x37, 0x6d, 0x8d, 0xd5,
        0x4e, 0xa9, 0x6c, 0x56, 0xf4, 0xea, 0x65, 0x7a, 0xae, 0x08, 0xba, 0x78, 0x25, 0x2e,
        0x1c, 0xa6, 0xb4, 0xc6, 0xe8, 0xdd, 0x74, 0x1f, 0x4b, 0xbd, 0x8b, 0x8a, 0x70, 0x3e,
        0xb5, 0x66, 0x48, 0x03, 0xf6, 0x0e, 0x61, 0x35, 0x57, 0xb9, 0x86, 0xc1, 0x1d, 0x9e,
        0xe1, 0xf8, 0x98, 0x11, 0x69, 0xd9, 0x8e, 0x94, 0x9b, 0x1e, 0x87, 0xe9, 0xce, 0x55,
        0x28, 0xdf, 0x8c, 0xa1, 0x89, 0x0d, 0xbf, 0xe6, 0x42, 0x68, 0x41, 0x99, 0x2d, 0x0f,
        0xb0, 0x54, 0xbb, 0x16
    ]
}

/// The substitution box.
pub fn sbox_table() -> (t: Vec<u8>)
    ensures
        t@ == sbox_seq(),
{
    let t: Vec<u8> = vec![
        0x63, 0x7c, 0x77, 0x7b, 0xf2, 0x6b, 0x6f, 0xc5, 0x30, 0x01, 0x67, 0x2b, 0xfe, 0xd7,
        0xab, 0x76, 0xca, 0x82, 0xc9, 0x7d, 0xfa, 0x59, 0x47, 0xf0, 0xad, 0xd4, 0xa2, 0xaf,
        0x9c, 0xa4, 0x72, 0xc0, 0xb7, 0xfd, 0x93, 0x26, 0x36, 0x3f, 0xf7, 0xcc, 0x34, 0xa5,
        0xe5, 0xf1, 0x71, 0xd8, 0x31, 0x15, 0x04, 0xc7, 0x23, 0xc3, 0x18, 0x96, 0x05, 0x9a,
        0x07, 0x12, 0x80, 0xe2, 0xeb, 0x27, 0xb2, 0x75, 0x09, 0x83, 0x2c, 0x1a, 0x1b, 0x6e,
        0x5a, 0xa0, 0x52, 0x3b, 0xd6, 0xb3, 0x29, 0xe3, 0x2f, 0x84, 0x53, 0xd1, 0x00, 0xed,
        0x20, 0xfc, 0xb1, 0x5b, 0x6a, 0xcb, 0xbe, 0x39, 0x4a, 0x4c, 0x58, 0xcf, 0xd0, 0xef,
        0xaa, 0xfb, 0x43, 0x4d, 0x33, 0x85, 0x45, 0xf9, 0x02, 0x7f, 0x50, 0x3c, 0x9f, 0xa8,
        0x51, 0xa3, 0x40, 0x8f, 0x92, 0x9d, 0x38, 0xf5, 0xbc, 0xb6, 0xda, 0x21, 0x10, 0xff,
        0xf3, 0xd2, 0xcd, 0x0c, 0x13, 0xec, 0x5f, 0x97, 0x44, 0x17, 0xc4, 0xa7, 0x7e, 0x3d,
        0x64, 0x5d, 0x19, 0x73, 0x60, 0x81, 0x4f, 0xdc, 0x22, 0x2a, 0x90, 0x88, 0x46, 0xee,
        0xb8, 0x14, 0xde, 0x5e, 0x0b, 0xdb, 0xe0, 0x32, 0x3a, 0x0a, 0x49, 0x06, 0x24, 0x5c,
        0xc2, 0xd3, 0xac, 0x62, 0x91, 0x95, 0xe4, 0x79, 0xe7, 0xc8, 0x37, 0x6d, 0x8d, 0xd5,
        0x4e, 0xa9, 0x6c, 0x56, 0xf4, 0xea, 0x65, 0x7a, 0xae, 0x08, 0xba, 0x78, 0x25, 0x2e,
        0x1c, 0xa6, 0xb4, 0xc6, 0xe8, 0xdd, 0x74, 0x1f, 0x4b, 0xbd, 0x8b, 0x8a, 0x70, 0x3e,
        0xb5, 0x66, 0x48, 0x03, 0xf6, 0x0e, 0x61, 0x35, 0x57, 0xb9, 0x86, 0xc1, 0x1d, 0x9e,
        0xe1, 0xf8, 0x98, 0x11, 0x69, 0xd9, 0x8e, 0x94, 0x9b, 0x1e, 0x87, 0xe9, 0xce, 0x55,
        0x28, 0xdf, 0x8c, 0xa1, 0x89, 0x0d, 0xbf, 0xe6, 0x42, 0x68, 0x41, 0x99, 0x2d, 0x0f,
        0xb0, 0x54, 0xbb, 0x16
    ];
    proof {
        assert(t@ =~= sbox_seq());
    }
    t
}

/// The inverse substitution box.
pub open spec fn inv_sbox_seq() -> Seq<u8> {
    seq![
        0x52, 0x09, 0x6a, 0xd5, 0x30, 0x36, 0xa5, 0x38, 0xbf, 0x40, 0xa3, 0x9e, 0x81, 0xf3,
        0xd7, 0xfb, 0x7c, 0xe3, 0x39, 0x82, 0x9b, 0x2f, 0xff, 0x87, 0x34, 0x8e, 0x43, 0x44,
        0xc4, 0xde, 0xe9, 0xcb, 0x54, 0x7b, 0x94, 0x32, 0xa6, 0xc2, 0x23, 0x3d, 0xee, 0x4c,
        0x95, 0x0b, 0x42, 0xfa, 0xc3, 0x4e, 0x08, 0x2e, 0xa1, 0x66, 0x28, 0xd9, 0x24, 0xb2,
        0x76, 0x5b, 0xa2, 0x49, 0x6d, 0x8b, 0xd1, 0x25, 0x72, 0xf8, 0xf6, 0x64, 0x86, 0x68,
        0x98, 0x16, 0xd4, 0xa4, 0x5c, 0xcc, 0x5d, 0x65, 0xb6, 0x92, 0x6c, 0x70, 0x48, 0x50,
        0xfd, 0xed, 0xb9, 0xda, 0x5e, 0x15, 0x46, 0x57, 0xa7, 0x8d, 0x9d, 0x84, 0x90, 0xd8,
        0xab, 0x00, 0x8c, 0xbc, 0xd3, 0x0a, 0xf7, 0xe4, 0x58, 0x05, 0xb8, 0xb3, 0x45, 0x06,
        0xd0, 0x2c, 0x1e, 0x8f, 0xca, 0x3f, 0x0f, 0x02, 0xc1, 0xaf, 0xbd, 0x03, 0x01, 0x13,
        0x8a, 0x6b, 0x3a, 0x91, 0x11, 0x41, 0x4f, 0x67, 0xdc, 0xea, 0x97, 0xf2, 0xcf, 0xce,
        0xf0, 0xb4, 0xe6, 0x73, 0x96, 0xac, 0x74, 0x22, 0xe7, 0xad, 0x35, 0x85, 0xe2, 0xf9,
        0x37, 0xe8, 0x1c, 0x75, 0xdf, 0x6e, 0x47, 0xf1, 0x1a, 0x71, 0x1d, 0x29, 0xc5, 0x89,
        0x6f, 0xb7, 0x62, 0x0e, 0xaa, 0x18, 0xbe, 0x1b, 0xfc, 0x56, 0x3e, 0x4b, 0xc6, 0xd2,
        0x79, 0x20, 0x9a, 0xdb, 0xc0, 0xfe, 0x78, 0xcd, 0x5a, 0xf4, 0x1f, 0xdd, 0xa8, 0x33,
        0x88, 0x07, 0xc7, 0x31, 0xb1, 0x12, 0x10, 0x59, 0x27, 0x80, 0xec, 0x5f, 0x60, 0x51,
        0x7f, 0xa9, 0x19, 0xb5, 0x4a, 0x0d, 0x2d, 0xe5, 0x7a, 0x9f, 0x93, 0xc9, 0x9c, 0xef,
        0xa0, 0xe0, 0x3b, 0x4d, 0xae, 0x2a, 0xf5, 0xb0, 0xc8, 0xeb, 0xbb, 0x3c, 0x83, 0x53,
        0x99, 0x61, 0x17, 0x2b, 0x04, 0x7e, 0xba, 0x77, 0xd6, 0x26, 0xe1, 0x69, 0x14, 0x63,
        0x55, 0x21, 0x0c, 0x7d
    ]
}

/// The inverse substitution box.
pub fn inv_sbox_table() -> (t: Vec<u8>)
    ensures
        t@ == inv_sbox_seq(),
{
    let t: Vec<u8> = vec![
        0x52, 0x09, 0x6a, 0xd5, 0x30, 0x36, 0xa5, 0x38, 0xbf, 0x40, 0xa3, 0x9e, 0x81, 0xf3,
        0xd7, 0xfb, 0x7c, 0xe3, 0x39, 0x82, 0x9b, 0x2f, 0xff, 0x87, 0x34, 0x8e, 0x43, 0x44,
        0xc4, 0xde, 0xe9, 0xcb, 0x54, 0x7b, 0x94, 0x32, 0xa6, 0xc2, 0x23, 0x3d, 0xee, 0x4c,
        0x95, 0x0b, 0x42, 0xfa, 0xc3, 0x4e, 0x08, 0x2e, 0xa1, 0x66, 0x28, 0xd9, 0x24, 0xb2,
        0x76, 0x5b, 0xa2, 0x49, 0x6d, 0x8b, 0xd1, 0x25, 0x72, 0xf8, 0xf6, 0x64, 0x86, 0x68,
        0x98, 0x16, 0xd4, 0xa4, 0x5c, 0xcc, 0x5d, 0x65, 0xb6, 0x92, 0x6c, 0x70, 0x48, 0x50,
        0xfd, 0xed, 0xb9, 0xda, 0x5e, 0x15, 0x46, 0x57, 0xa7, 0x8d, 0x9d, 0x84, 0x90, 0xd8,
        0xab, 0x00, 0x8c, 0xbc, 0xd3, 0x0a, 0xf7, 0xe4, 0x58, 0x05, 0xb8, 0xb3, 0x45, 0x06,
        0xd0, 0x2c, 0x1e, 0x8f, 0xca, 0x3f, 0x0f, 0x02, 0xc1, 0xaf, 0xbd, 0x03, 0x01, 0x13,
        0x8a, 0x6b, 0x3a, 0x91, 0x11, 0x41, 0x4f, 0x67, 0xdc, 0xea, 0x97, 0xf2, 0xcf, 0xce,
        0xf0, 0xb4, 0xe6, 0x73, 0x96, 0xac, 0x74, 0x22, 0xe7, 0xad, 0x35, 0x85, 0xe2, 0xf9,
        0x37, 0xe8, 0x1c, 0x75, 0xdf, 0x6e, 0x47, 0xf1, 0x1a, 0x71, 0x1d, 0x29, 0xc5, 0x89,
        0x6f, 0xb7, 0x62, 0x0e, 0xaa, 0x18, 0xbe, 0x1b, 0xfc, 0x56, 0x3e, 0x4b, 0xc6, 0xd2,
        0x79, 0x20, 0x9a, 0xdb, 0xc0, 0xfe, 0x78, 0xcd, 0x5a, 0xf4, 0x1f, 0xdd, 0xa8, 0x33,
        0x88, 0x07, 0xc7, 0x31, 0xb1, 0x12, 0x10, 0x59, 0x27, 0x80, 0xec, 0x5f, 0x60, 0x51,
        0x7f, 0xa9, 0x19, 0xb5, 0x4a, 0x0d, 0x2d, 0xe5, 0x7a, 0x9f, 0x93, 0xc9, 0x9c, 0xef,
        0xa0, 0xe0, 0x3b, 0x4d, 0xae, 0x2a, 0xf5, 0xb0, 0xc8, 0xeb, 0xbb, 0x3c, 0x83, 0x53,
        0x99, 0x61, 0x17, 0x2b, 0x04, 0x7e, 0xba, 0x77, 0xd6, 0x26, 0xe1, 0x69, 0x14, 0x63,
        0x55, 0x21, 0x0c, 0x7d
    ];
    proof {
        assert(t@ =~= inv_sbox_seq());
    }
    t
}

/// Multiplication by 2 in the block field.
pub open spec fn mul2_seq() -> Seq<u8> {
    seq![
        0x00, 0x02, 0x04, 0x06, 0x08, 0x0a, 0x0c, 0x0e, 0x10, 0x12, 0x14, 0x16, 0x18, 0x1a,
        0x1c, 0x1e, 0x20, 0x22, 0x24, 0x26, 0x28, 0x2a, 0x2c, 0x2e, 0x30, 0x32, 0x34, 0x36,
        0x38, 0x3a, 0x3c, 0x3e, 0x40, 0x42, 0x44, 0x46, 0x48, 0x4a, 0x4c, 0x4e, 0x50, 0x52,
        0x54, 0x56, 0x58, 0x5a, 0x5c, 0x5e, 0x60, 0x62, 0x64, 0x66, 0x68, 0x6a, 0x6c, 0x6e,
        0x70, 0x72, 0x74, 0x76, 0x78, 0x7a, 0x7c, 0x7e, 0x80, 0x82, 0x84, 0x86, 0x88, 0x8a,
        0x8c, 0x8e, 0x90, 0x92, 0x94, 0x96, 0x98, 0x9a, 0x9c, 0x9e, 0xa0, 0xa2, 0xa4, 0xa6,
        0xa8, 0xaa, 0xac, 0xae, 0xb0, 0xb2, 0xb4, 0xb6, 0xb8, 0xba, 0xbc, 0xbe, 0xc0, 0xc2,
        0xc4, 0xc6, 0xc8, 0xca, 0xcc, 0xce, 0xd0, 0xd2, 0xd4, 0xd6, 0xd8, 0xda, 0xdc, 0xde,
        0xe0, 0xe2, 0xe4, 0xe6, 0xe8, 0xea, 0xec, 0xee, 0xf0, 0xf2, 0xf4, 0xf6, 0xf8, 0xfa,
        0xfc, 0xfe, 0x1b, 0x19, 0x1f, 0x1d, 0x13, 0x11, 0x17, 0x15, 0x0b, 0x09, 0x0f, 0x0d,
        0x03, 0x01, 0x07, 0x05, 0x3b, 0x39, 0x3f, 0x3d, 0x33, 0x31, 0x37, 0x35, 0x2b, 0x29,
        0x2f, 0x2d, 0x23, 0x21, 0x27, 0x25, 0x5b, 0x59, 0x5f, 0x5d, 0x53, 0x51, 0x57, 0x55,
        0x4b, 0x49, 0x4f, 0x4d, 0x43, 0x41, 0x47, 0x45, 0x7b, 0x79, 0x7f, 0x7d, 0x73, 0x71,
        0x77, 0x75, 0x6b, 0x69, 0x6f, 0x6d, 0x63, 0x61, 0x67, 0x65, 0x9b, 0x99, 0x9f, 0x9d,
        0x93, 0x91, 0x97, 0x95, 0x8b, 0x89, 0x8f, 0x8d, 0x83, 0x81, 0x87, 0x85, 0xbb, 0xb9,
        0xbf, 0xbd, 0xb3, 0xb1, 0xb7, 0xb5, 0xab, 0xa9, 0xaf, 0xad, 0xa3, 0xa1, 0xa7, 0xa5,
        0xdb, 0xd9, 0xdf, 0xdd, 0xd3, 0xd1, 0xd7, 0xd5, 0xcb, 0xc9, 0xcf, 0xcd, 0xc3, 0xc1,
        0xc7, 0xc5, 0xfb, 0xf9, 0xff, 0xfd, 0xf3, 0xf1, 0xf7, 0xf5, 0xeb, 0xe9, 0xef, 0xed,
        0xe3, 0xe1, 0xe7, 0xe5
    ]
}

/// Multiplication by 2 in the block field.
pub fn mul2_table() -> (t: Vec<u8>)
    ensures
        t@ == mul2_seq(),
{
    let t: Vec<u8> = vec![
        0x00, 0x02, 0x04, 0x06, 0x08, 0x0a, 0x0c, 0x0e, 0x10, 0x12, 0x14, 0x16, 0x18, 0x1a,
        0x1c, 0x1e, 0x20, 0x22, 0x24, 0x26, 0x28, 0x2a, 0x2c, 0x2e, 0x30, 0x32, 0x34, 0x36,
        0x38, 0x3a, 0x3c, 0x3e, 0x40, 0x42, 0x44, 0x46, 0x48, 0x4a, 0x4c, 0x4e, 0x50, 0x52,
        0x54, 0x56, 0x58, 0x5a, 0x5c, 0x5e, 0x60, 0x62, 0x64, 0x66, 0x68, 0x6a, 0x6c, 0x6e,
        0x70, 0x72, 0x74, 0x76, 0x78, 0x7a, 0x7c, 0x7e, 0x80, 0x82, 0x84, 0x86, 0x88, 0x8a,
        0x8c, 0x8e, 0x90, 0x92, 0x94, 0x96, 0x98, 0x9a, 0x9c, 0x9e, 0xa0, 0xa2, 0xa4, 0xa6,
        0xa8, 0xaa, 0xac, 0xae, 0xb0, 0xb2, 0xb4, 0xb6, 0xb8, 0xba, 0xbc, 0xbe, 0xc0, 0xc2,
        0xc4, 0xc6, 0xc8, 0xca, 0xcc, 0xce, 0xd0, 0xd2, 0xd4, 0xd6, 0xd8, 0xda, 0xdc, 0xde,
        0xe0, 0xe2, 0xe4, 0xe6, 0xe8, 0xea, 0xec, 0xee, 0xf0, 0xf2, 0xf4, 0xf6, 0xf8, 0xfa,
        0xfc, 0xfe, 0x1b, 0x19, 0x1f, 0x1d, 0x13, 0x11, 0x17, 0x15, 0x0b, 0x09, 0x0f, 0x0d,
        0x03, 0x01, 0x07, 0x05, 0x3b, 0x39, 0x3f, 0x3d, 0x33, 0x31, 0x37, 0x35, 0x2b, 0x29,
        0x2f, 0x2d, 0x23, 0x21, 0x27, 0x25, 0x5b, 0x59, 0x5f, 0x5d, 0x53, 0x51, 0x57, 0x55,
        0x4b, 0x49, 0x4f, 0x4d, 0x43, 0x41, 0x47, 0x45, 0x7b, 0x79, 0x7f, 0x7d, 0x73, 0x71,
        0x77, 0x75, 0x6b, 0x69, 0x6f, 0x6d, 0x63, 0x61, 0x67, 0x65, 0x9b, 0x99, 0x9f, 0x9d,
        0x93, 0x91, 0x97, 0x95, 0x8b, 0x89, 0x8f, 0x8d, 0x83, 0x81, 0x87, 0x85, 0xbb, 0xb9,
        0xbf, 0xbd, 0xb3, 0xb1, 0xb7, 0xb5, 0xab, 0xa9, 0xaf, 0xad, 0xa3, 0xa1, 0xa7, 0xa5,
        0xdb, 0xd9, 0xdf, 0xdd, 0xd3, 0xd1, 0xd7, 0xd5, 0xcb, 0xc9, 0xcf, 0xcd, 0xc3, 0xc1,
        0xc7, 0xc5, 0xfb, 0xf9, 0xff, 0xfd, 0xf3, 0xf1, 0xf7, 0xf5, 0xeb, 0xe9, 0xef, 0xed,
        0xe3, 0xe1, 0xe7, 0xe5
    ];
    proof {
        assert(t@ =~= mul2_seq());
    }
    t
}

/// Multiplication by 3 in the block field.
pub open spec fn mul3_seq() -> Seq<u8> {
    seq![
        0x00, 0x03, 0x06, 0x05, 0x0c, 0x0f, 0x0a, 0x09, 0x18, 0x1b, 0x1e, 0x1d, 0x14, 0x17,
        0x12, 0x11, 0x30, 0x33, 0x36, 0x35, 0x3c, 0x3f, 0x3a, 0x39, 0x28, 0x2b, 0x2e, 0x2d,
        0x24, 0x27, 0x22, 0x21, 0x60, 0x63, 0x66, 0x65, 0x6c, 0x6f, 0x6a, 0x69, 0x78, 0x7b,
        0x7e, 0x7d, 0x74, 0x77, 0x72, 0x71, 0x50, 0x53, 0x56, 0x55, 0x5c, 0x5f, 0x5a, 0x59,
        0x48, 0x4b, 0x4e, 0x4d, 0x44, 0x47, 0x42, 0x41, 0xc0, 0xc3, 0xc6, 0xc5, 0xcc, 0xcf,
        0xca, 0xc9, 0xd8, 0xdb, 0xde, 0xdd, 0xd4, 0xd7, 0xd2, 0xd1, 0xf0, 0xf3, 0xf6, 0xf5,
        0xfc, 0xff, 0xfa, 0xf9, 0xe8, 0xeb, 0xee, 0xed, 0xe4, 0xe7, 0xe2, 0xe1, 0xa0, 0xa3,
        0xa6, 0xa5, 0xac, 0xaf, 0xaa, 0xa9, 0xb8, 0xbb, 0xbe, 0xbd, 0xb4, 0xb7, 0xb2, 0xb1,
        0x90, 0x93, 0x96, 0x95, 0x9c, 0x9f, 0x9a, 0x99, 0x88, 0x8b, 0x8e, 0x8d, 0x84, 0x87,
        0x82, 0x81, 0x9b, 0x98, 0x9d, 0x9e, 0x97, 0x94, 0x91, 0x92, 0x83, 0x80, 0x85, 0x86,
        0x8f, 0x8c, 0x89, 0x8a, 0xab, 0xa8, 0xad, 0xae, 0xa7, 0xa4, 0xa1, 0xa2, 0xb3, 0xb0,
        0xb5, 0xb6, 0xbf, 0xbc, 0xb9, 0xba, 0xfb, 0xf8, 0xfd, 0xfe, 0xf7, 0xf4, 0xf1, 0xf2,
        0xe3, 0xe0, 0xe5, 0xe6, 0xef, 0xec, 0xe9, 0xea, 0xcb, 0xc8, 0xcd, 0xce, 0xc7, 0xc4,
        0xc1, 0xc2, 0xd3, 0xd0, 0xd5, 0xd6, 0xdf, 0xdc, 0xd9, 0xda, 0x5b, 0x58, 0x5d, 0x5e,
        0x57, 0x54, 0x51, 0x52, 0x43, 0x40, 0x45, 0x46, 0x4f, 0x4c, 0x49, 0x4a, 0x6b, 0x68,
        0x6d, 0x6e, 0x67, 0x64, 0x61, 0x62, 0x73, 0x70, 0x75, 0x76, 0x7f, 0x7c, 0x79, 0x7a,
        0x3b, 0x38, 0x3d, 0x3e, 0x37, 0x34, 0x31, 0x32, 0x23, 0x20, 0x25, 0x26, 0x2f, 0x2c,
        0x29, 0x2a, 0x0b, 0x08, 0x0d, 0x0e, 0x07, 0x04, 0x01, 0x02, 0x13, 0x10, 0x15, 0x16,
        0x1f, 0x1c, 0x19, 0x1a
    ]
}

/// Multiplication by 3 in the block field.
pub fn mul3_table() -> (t: Vec<u8>)
    ensures
        t@ == mul3_seq(),
{
    let t: Vec<u8> = vec![
        0x00, 0x03, 0x06, 0x05, 0x0c, 0x0f, 0x0a, 0x09, 0x18, 0x1b, 0x1e, 0x1d, 0x14, 0x17,
        0x12, 0x11, 0x30, 0x33, 0x36, 0x35, 0x3c, 0x3f, 0x3a, 0x39, 0x28, 0x2b, 0x2e, 0x2d,
        0x24, 0x27, 0x22, 0x21, 0x60, 0x63, 0x66, 0x65, 0x6c, 0x6f, 0x6a, 0x69, 0x78, 0x7b,
        0x7e, 0x7d, 0x74, 0x77, 0x72, 0x71, 0x50, 0x53, 0x56, 0x55, 0x5c, 0x5f, 0x5a, 0x59,
        0x48, 0x4b, 0x4e, 0x4d, 0x44, 0x47, 0x42, 0x41, 0xc0, 0xc3, 0xc6, 0xc5, 0xcc, 0xcf,
        0xca, 0xc9, 0xd8, 0xdb, 0xde, 0xdd, 0xd4, 0xd7, 0xd2, 0xd1, 0xf0, 0xf3, 0xf6, 0xf5,
        0xfc, 0xff, 0xfa, 0xf9, 0xe8, 0xeb, 0xee, 0xed, 0xe4, 0xe7, 0xe2, 0xe1, 0xa0, 0xa3,
        0xa6, 0xa5, 0xac, 0xaf, 0xaa, 0xa9, 0xb8, 0xbb, 0xbe, 0xbd, 0xb4, 0xb7, 0xb2, 0xb1,
        0x90, 0x93, 0x96, 0x95, 0x9c, 0x9f, 0x9a, 0x99, 0x88, 0x8b, 0x8e, 0x8d, 0x84, 0x87,
        0x82, 0x81, 0x9b, 0x98, 0x9d, 0x9e, 0x97, 0x94, 0x91, 0x92, 0x83, 0x80, 0x85, 0x86,
        0x8f, 0x8c, 0x89, 0x8a, 0xab, 0xa8, 0xad, 0xae, 0xa7, 0xa4, 0xa1, 0xa2, 0xb3, 0xb0,
        0xb5, 0xb6, 0xbf, 0xbc, 0xb9, 0xba, 0xfb, 0xf8, 0xfd, 0xfe, 0xf7, 0xf4, 0xf1, 0xf2,
        0xe3, 0xe0, 0xe5, 0xe6, 0xef, 0xec, 0xe9, 0xea, 0xcb, 0xc8, 0xcd, 0xce, 0xc7, 0xc4,
        0xc1, 0xc2, 0xd3, 0xd0, 0xd5, 0xd6, 0xdf, 0xdc, 0xd9, 0xda, 0x5b, 0x58, 0x5d, 0x5e,
        0x57, 0x54, 0x51, 0x52, 0x43, 0x40, 0x45, 0x46, 0x4f, 0x4c, 0x49, 0x4a, 0x6b, 0x68,
        0x6d, 0x6e, 0x67, 0x64, 0x61, 0x62, 0x73, 0x70, 0x75, 0x76, 0x7f, 0x7c, 0x79, 0x7a,
        0x3b, 0x38, 0x3d, 0x3e, 0x37, 0x34, 0x31, 0x32, 0x23, 0x20, 0x25, 0x26, 0x2f, 0x2c,
        0x29, 0x2a, 0x0b, 0x08, 0x0d, 0x0e, 0x07, 0x04, 0x01, 0x02, 0x13, 0x10, 0x15, 0x16,
        0x1f, 0x1c, 0x19, 0x1a
    ];
    proof {
        assert(t@ =~= mul3_seq());
    }
    t
}

/// Multiplication by 9 in the block field.
pub open spec fn mul9_seq() -> Seq<u8> {
    seq![
        0x00, 0x09, 0x12, 0x1b, 0x24, 0x2d, 0x36, 0x3f, 0x48, 0x41, 0x5a, 0x53, 0x6c, 0x65,
        0x7e, 0x77, 0x90, 0x99, 0x82, 0x8b, 0xb4, 0xbd, 0xa6, 0xaf, 0xd8, 0xd1, 0xca, 0xc3,
        0xfc, 0xf5, 0xee, 0xe7, 0x3b, 0x32, 0x29, 0x20, 0x1f, 0x16, 0x0d, 0x04, 0x73, 0x7a,
        0x61, 0x68, 0x57, 0x5e, 0x45, 0x4c, 0xab, 0xa2, 0xb9, 0xb0, 0x8f, 0x86, 0x9d, 0x94,
        0xe3, 0xea, 0xf1, 0xf8, 0xc7, 0xce, 0xd5, 0xdc, 0x76, 0x7f, 0x64, 0x6d, 0x52, 0x5b,
        0x40, 0x49, 0x3e, 0x37, 0x2c, 0x25, 0x1a, 0x13, 0x08, 0x01, 0xe6, 0xef, 0xf4, 0xfd,
        0xc2, 0xcb, 0xd0, 0xd9, 0xae, 0xa7, 0xbc, 0xb5, 0x8a, 0x83, 0x98, 0x91, 0x4d, 0x44,
        0x5f, 0x56, 0x69, 0x60, 0x7b, 0x72, 0x05, 0x0c, 0x17, 0x1e, 0x21, 0x28, 0x33, 0x3a,
        0xdd, 0xd4, 0xcf, 0xc6, 0xf9, 0xf0, 0xeb, 0xe2, 0x95, 0x9c, 0x87, 0x8e, 0xb1, 0xb8,
        0xa3, 0xaa, 0xec, 0xe5, 0xfe, 0xf7, 0xc8, 0xc1, 0xda, 0xd3, 0xa4, 0xad, 0xb6, 0xbf,
        0x80, 0x89, 0x92, 0x9b, 0x7c, 0x75, 0x6e, 0x67, 0x58, 0x51, 0x4a, 0x43, 0x34, 0x3d,
        0x26, 0x2f, 0x10, 0x19, 0x02, 0x0b, 0xd7, 0xde, 0xc5, 0xcc, 0xf3, 0xfa, 0xe1, 0xe8,
        0x9f, 0x96, 0x8d, 0x84, 0xbb, 0xb2, 0xa9, 0xa0, 0x47, 0x4e, 0x55, 0x5c, 0x63, 0x6a,
        0x71, 0x78, 0x0f, 0x06, 0x1d, 0x14, 0x2b, 0x22, 0x39, 0x30, 0x9a, 0x93, 0x88, 0x81,
        0xbe, 0xb7, 0xac, 0xa5, 0xd2, 0xdb, 0xc0, 0xc9, 0xf6, 0xff, 0xe4, 0xed, 0x0a, 0x03,
        0x18, 0x11, 0x2e, 0x27, 0x3c, 0x35, 0x42, 0x4b, 0x50, 0x59, 0x66, 0x6f, 0x74, 0x7d,
        0xa1, 0xa8, 0xb3, 0xba, 0x85, 0x8c, 0x97, 0x9e, 0xe9, 0xe0, 0xfb, 0xf2, 0xcd, 0xc4,
        0xdf, 0xd6, 0x31, 0x38, 0x23, 0x2a, 0x15, 0x1c, 0x07, 0x0e, 0x79, 0x70, 0x6b, 0x62,
        0x5d, 0x54, 0x4f, 0x46
    ]
}

/// Multiplication by 9 in the block field.
pub fn mul9_table() -> (t: Vec<u8>)
    ensures
        t@ == mul9_seq(),
{
    let t: Vec<u8> = vec![
        0x00, 0x09, 0x12, 0x1b, 0x24, 0x2d, 0x36, 0x3f, 0x48, 0x41, 0x5a, 0x53, 0x6c, 0x65,
        0x7e, 0x77, 0x90, 0x99, 0x82, 0x8b, 0xb4, 0xbd, 0xa6, 0xaf, 0xd8, 0xd1, 0xca, 0xc3,
        0xfc, 0xf5, 0xee, 0xe7, 0x3b, 0x32, 0x29, 0x20, 0x1f, 0x16, 0x0d, 0x04, 0x73, 0x7a,
        0x61, 0x68, 0x57, 0x5e, 0x45, 0x4c, 0xab, 0xa2, 0xb9, 0xb0, 0x8f, 0x86, 0x9d, 0x94,
        0xe3, 0xea, 0xf1, 0xf8, 0xc7, 0xce, 0xd5, 0xdc, 0x76, 0x7f, 0x64, 0x6d, 0x52, 0x5b,
        0x40, 0x49, 0x3e, 0x37, 0x2c, 0x25, 0x1a, 0x13, 0x08, 0x01, 0xe6, 0xef, 0xf4, 0xfd,
        0xc2, 0xcb, 0xd0, 0xd9, 0xae, 0xa7, 0xbc, 0xb5, 0x8a, 0x83, 0x98, 0x91, 0x4d, 0x44,
        0x5f, 0x56, 0x69, 0x60, 0x7b, 0x72, 0x05, 0x0c, 0x17, 0x1e, 0x21, 0x28, 0x33, 0x3a,
        0xdd, 0xd4, 0xcf, 0xc6, 0xf9, 0xf0, 0xeb, 0xe2, 0x95, 0x9c, 0x87, 0x8e, 0xb1, 0xb8,
        0xa3, 0xaa, 0xec, 0xe5, 0xfe, 0xf7, 0xc8, 0xc1, 0xda, 0xd3, 0xa4, 0xad, 0xb6, 0xbf,
        0x80, 0x89, 0x92, 0x9b, 0x7c, 0x75, 0x6e, 0x67, 0x58, 0x51, 0x4a, 0x43, 0x34, 0x3d,
        0x26, 0x2f, 0x10, 0x19, 0x02, 0x0b, 0xd7, 0xde, 0xc5, 0xcc, 0xf3, 0xfa, 0xe1, 0xe8,
        0x9f, 0x96, 0x8d, 0x84, 0xbb, 0xb2, 0xa9, 0xa0, 0x47, 0x4e, 0x55, 0x5c, 0x63, 0x6a,
        0x71, 0x78, 0x0f, 0x06, 0x1d, 0x14, 0x2b, 0x22, 0x39, 0x30, 0x9a, 0x93, 0x88, 0x81,
        0xbe, 0xb7, 0xac, 0xa5, 0xd2, 0xdb, 0xc0, 0xc9, 0xf6, 0xff, 0xe4, 0xed, 0x0a, 0x03,
        0x18, 0x11, 0x2e, 0x27, 0x3c, 0x35, 0x42, 0x4b, 0x50, 0x59, 0x66, 0x6f, 0x74, 0x7d,
        0xa1, 0xa8, 0xb3, 0xba, 0x85, 0x8c, 0x97, 0x9e, 0xe9, 0xe0, 0xfb, 0xf2, 0xcd, 0xc4,
        0xdf, 0xd6, 0x31, 0x38, 0x23, 0x2a, 0x15, 0x1c, 0x07, 0x0e, 0x79, 0x70, 0x6b, 0x62,
        0x5d, 0x54, 0x4f, 0x46
    ];
    proof {
        assert(t@ =~= mul9_seq());
    }
    t
}

/// Multiplication by 11 in the block field.
pub open spec fn mul11_seq() -> Seq<u8> {
    seq![
        0x00, 0x0b, 0x16, 0x1d, 0x2c, 0x27, 0x3a, 0x31, 0x58, 0x53, 0x4e, 0x45, 0x74, 0x7f,
        0x62, 0x69, 0xb0, 0xbb, 0xa6, 0xad, 0x9c, 0x97, 0x8a, 0x81, 0xe8, 0xe3, 0xfe, 0xf5,
        0xc4, 0xcf, 0xd2, 0xd9, 0x7b, 0x70, 0x6d, 0x66, 0x57, 0x5c, 0x41, 0x4a, 0x23, 0x28,
        0x35, 0x3e, 0x0f, 0x04, 0x19, 0x12, 0xcb, 0xc0, 0xdd, 0xd6, 0xe7, 0xec, 0xf1, 0xfa,
        0x93, 0x98, 0x85, 0x8e, 0xbf, 0xb4, 0xa9, 0xa2, 0xf6, 0xfd, 0xe0, 0xeb, 0xda, 0xd1,
        0xcc, 0xc7, 0xae, 0xa5, 0xb8, 0xb3, 0x82, 0x89, 0x94, 0x9f, 0x46, 0x4d, 0x50, 0x5b,
        0x6a, 0x61, 0x7c, 0x77, 0x1e, 0x15, 0x08, 0x03, 0x32, 0x39, 0x24, 0x2f, 0x8d, 0x86,
        0x9b, 0x90, 0xa1, 0xaa, 0xb7, 0xbc, 0xd5, 0xde, 0xc3, 0xc8, 0xf9, 0xf2, 0xef, 0xe4,
        0x3d, 0x36, 0x2b, 0x20, 0x11, 0x1a, 0x07, 0x0c, 0x65, 0x6e, 0x73, 0x78, 0x49, 0x42,
        0x5f, 0x54, 0xf7, 0xfc, 0xe1, 0xea, 0xdb, 0xd0, 0xcd, 0xc6, 0xaf, 0xa4, 0xb9, 0xb2,
        0x83, 0x88, 0x95, 0x9e, 0x47, 0x4c, 0x51, 0x5a, 0x6b, 0x60, 0x7d, 0x76, 0x1f, 0x14,
        0x09, 0x02, 0x33, 0x38, 0x25, 0x2e, 0x8c, 0x87, 0x9a, 0x91, 0xa0, 0xab, 0xb6, 0xbd,
        0xd4, 0xdf, 0xc2, 0xc9, 0xf8, 0xf3, 0xee, 0xe5, 0x3c, 0x37, 0x2a, 0x21, 0x10, 0x1b,
        0x06, 0x0d, 0x64, 0x6f, 0x72, 0x79, 0x48, 0x43, 0x5e, 0x55, 0x01, 0x0a, 0x17, 0x1c,
        0x2d, 0x26, 0x3b, 0x30, 0x59, 0x52, 0x4f, 0x44, 0x75, 0x7e, 0x63, 0x68, 0xb1, 0xba,
        0xa7, 0xac, 0x9d, 0x96, 0x8b, 0x80, 0xe9, 0xe2, 0xff, 0xf4, 0xc5, 0xce, 0xd3, 0xd8,
        0x7a, 0x71, 0x6c, 0x67, 0x56, 0x5d, 0x40, 0x4b, 0x22, 0x29, 0x34, 0x3f, 0x0e, 0x05,
        0x18, 0x13, 0xca, 0xc1, 0xdc, 0xd7, 0xe6, 0xed, 0xf0, 0xfb, 0x92, 0x99, 0x84, 0x8f,
        0xbe, 0xb5, 0xa8, 0xa3
    ]
}

/// Multiplication by 11 in the block field.
pub fn mul11_table() -> (t: Vec<u8>)
    ensures
        t@ == mul11_seq(),
{
    let t: Vec<u8> = vec![
        0x00, 0x0b, 0x16, 0x1d, 0x2c, 0x27, 0x3a, 0x31, 0x58, 0x53, 0x4e, 0x45, 0x74, 0x7f,
        0x62, 0x69, 0xb0, 0xbb, 0xa6, 0xad, 0x9c, 0x97, 0x8a, 0x81, 0xe8, 0xe3, 0xfe, 0xf5,
        0xc4, 0xcf, 0xd2, 0xd9, 0x7b, 0x70, 0x6d, 0x66, 0x57, 0x5c, 0x41, 0x4a, 0x23, 0x28,
        0x35, 0x3e, 0x0f, 0x04, 0x19, 0x12, 0xcb, 0xc0, 0xdd, 0xd6, 0xe7, 0xec, 0xf1, 0xfa,
        0x93, 0x98, 0x85, 0x8e, 0xbf, 0xb4, 0xa9, 0xa2, 0xf6, 0xfd, 0xe0, 0xeb, 0xda, 0xd1,
        0xcc, 0xc7, 0xae, 0xa5, 0xb8, 0xb3, 0x82, 0x89, 0x94, 0x9f, 0x46, 0x4d, 0x50, 0x5b,
        0x6a, 0x61, 0x7c, 0x77, 0x1e, 0x15, 0x08, 0x03, 0x32, 0x39, 0x24, 0x2f, 0x8d, 0x86,
        0x9b, 0x90, 0xa1, 0xaa, 0xb7, 0xbc, 0xd5, 0xde, 0xc3, 0xc8, 0xf9, 0xf2, 0xef, 0xe4,
        0x3d, 0x36, 0x2b, 0x20, 0x11, 0x1a, 0x07, 0x0c, 0x65, 0x6e, 0x73, 0x78, 0x49, 0x42,
        0x5f, 0x54, 0xf7, 0xfc, 0xe1, 0xea, 0xdb, 0xd0, 0xcd, 0xc6, 0xaf, 0xa4, 0xb9, 0xb2,
        0x83, 0x88, 0x95, 0x9e, 0x47, 0x4c, 0x51, 0x5a, 0x6b, 0x60, 0x7d, 0x76, 0x1f, 0x14,
        0x09, 0x02, 0x33, 0x38, 0x25, 0x2e, 0x8c, 0x87, 0x9a, 0x91, 0xa0, 0xab, 0xb6, 0xbd,
        0xd4, 0xdf, 0xc2, 0xc9, 0xf8, 0xf3, 0xee, 0xe5, 0x3c, 0x37, 0x2a, 0x21, 0x10, 0x1b,
        0x06, 0x0d, 0x64, 0x6f, 0x72, 0x79, 0x48, 0x43, 0x5e, 0x55, 0x01, 0x0a, 0x17, 0x1c,
        0x2d, 0x26, 0x3b, 0x30, 0x59, 0x52, 0x4f, 0x44, 0x75, 0x7e, 0x63, 0x68, 0xb1, 0xba,
        0xa7, 0xac, 0x9d, 0x96, 0x8b, 0x80, 0xe9, 0xe2, 0xff, 0xf4, 0xc5, 0xce, 0xd3, 0xd8,
        0x7a, 0x71, 0x6c, 0x67, 0x56, 0x5d, 0x40, 0x4b, 0x22, 0x29, 0x34, 0x3f, 0x0e, 0x05,
        0x18, 0x13, 0xca, 0xc1, 0xdc, 0xd7, 0xe6, 0xed, 0xf0, 0xfb, 0x92, 0x99, 0x84, 0x8f,
        0xbe, 0xb5, 0xa8, 0xa3
    ];
    proof {
        assert(t@ =~= mul11_seq());
    }
    t
}

/// Multiplication by 13 in the block field.
pub open spec fn mul13_seq() -> Seq<u8> {
    seq![
        0x00, 0x0d, 0x1a, 0x17, 0x34, 0x39, 0x2e, 0x23, 0x68, 0x65, 0x72, 0x7f, 0x5c, 0x51,
        0x46, 0x4b, 0xd0, 0xdd, 0xca, 0xc7, 0xe4, 0xe9, 0xfe, 0xf3, 0xb8, 0xb5, 0xa2, 0xaf,
        0x8c, 0x81, 0x96, 0x9b, 0xbb, 0xb6, 0xa1, 0xac, 0x8f, 0x82, 0x95, 0x98, 0xd3, 0xde,
        0xc9, 0xc4, 0xe7, 0xea, 0xfd, 0xf0, 0x6b, 0x66, 0x71, 0x7c, 0x5f, 0x52, 0x45, 0x48,
        0x03, 0x0e, 0x19, 0x14, 0x37, 0x3a, 0x2d, 0x20, 0x6d, 0x60, 0x77, 0x7a, 0x59, 0x54,
        0x43, 0x4e, 0x05, 0x08, 0x1f, 0x12, 0x31, 0x3c, 0x2b, 0x26, 0xbd, 0xb0, 0xa7, 0xaa,
        0x89, 0x84, 0x93, 0x9e, 0xd5, 0xd8, 0xcf, 0xc2, 0xe1, 0xec, 0xfb, 0xf6, 0xd6, 0xdb,
        0xcc, 0xc1, 0xe2, 0xef, 0xf8, 0xf5, 0xbe, 0xb3, 0xa4, 0xa9, 0x8a, 0x87, 0x90, 0x9d,
        0x06, 0x0b, 0x1c, 0x11, 0x32, 0x3f, 0x28, 0x25, 0x6e, 0x63, 0x74, 0x79, 0x5a, 0x57,
        0x40, 0x4d, 0xda, 0xd7, 0xc0, 0xcd, 0xee, 0xe3, 0xf4, 0xf9, 0xb2, 0xbf, 0xa8, 0xa5,
        0x86, 0x8b, 0x9c, 0x91, 0x0a, 0x07, 0x10, 0x1d, 0x3e, 0x33, 0x24, 0x29, 0x62, 0x6f,
        0x78, 0x75, 0x56, 0x5b, 0x4c, 0x41, 0x61, 0x6c, 0x7b, 0x76, 0x55, 0x58, 0x4f, 0x42,
        0x09, 0x04, 0x13, 0x1e, 0x3d, 0x30, 0x27, 0x2a, 0xb1, 0xbc, 0xab, 0xa6, 0x85, 0x88,
        0x9f, 0x92, 0xd9, 0xd4, 0xc3, 0xce, 0xed, 0xe0, 0xf7, 0xfa, 0xb7, 0xba, 0xad, 0xa0,
        0x83, 0x8e, 0x99, 0x94, 0xdf, 0xd2, 0xc5, 0xc8, 0xeb, 0xe6, 0xf1, 0xfc, 0x67, 0x6a,
        0x7d, 0x70, 0x53, 0x5e, 0x49, 0x44, 0x0f, 0x02, 0x15, 0x18, 0x3b, 0x36, 0x21, 0x2c,
        0x0c, 0x01, 0x16, 0x1b, 0x38, 0x35, 0x22, 0x2f, 0x64, 0x69, 0x7e, 0x73, 0x50, 0x5d,
        0x4a, 0x47, 0xdc, 0xd1, 0xc6, 0xcb, 0xe8, 0xe5, 0xf2, 0xff, 0xb4, 0xb9, 0xae, 0xa3,
        0x80, 0x8d, 0x9a, 0x97
    ]
}

/// Multiplication by 13 in the block field.
pub fn mul13_table() -> (t: Vec<u8>)
    ensures
        t@ == mul13_seq(),
{
    let t: Vec<u8> = vec![
        0x00, 0x0d, 0x1a, 0x17, 0x34, 0x39, 0x2e, 0x23, 0x68, 0x65, 0x72, 0x7f, 0x5c, 0x51,
        0x46, 0x4b, 0xd0, 0xdd, 0xca, 0xc7, 0xe4, 0xe9, 0xfe, 0xf3, 0xb8, 0xb5, 0xa2, 0xaf,
        0x8c, 0x81, 0x96, 0x9b, 0xbb, 0xb6, 0xa1, 0xac, 0x8f, 0x82, 0x95, 0x98, 0xd3, 0xde,
        0xc9, 0xc4, 0xe7, 0xea, 0xfd, 0xf0, 0x6b, 0x66, 0x71, 0x7c, 0x5f, 0x52, 0x45, 0x48,
        0x03, 0x0e, 0x19, 0x14, 0x37, 0x3a, 0x2d, 0x20, 0x6d, 0x60, 0x77, 0x7a, 0x59, 0x54,
        0x43, 0x4e, 0x05, 0x08, 0x1f, 0x12, 0x31, 0x3c, 0x2b, 0x26, 0xbd, 0xb0, 0xa7, 0xaa,
        0x89, 0x84, 0x93, 0x9e, 0xd5, 0xd8, 0xcf, 0xc2, 0xe1, 0xec, 0xfb, 0xf6, 0xd6, 0xdb,
        0xcc, 0xc1, 0xe2, 0xef, 0xf8, 0xf5, 0xbe, 0xb3, 0xa4, 0xa9, 0x8a, 0x87, 0x90, 0x9d,
        0x06, 0x0b, 0x1c, 0x11, 0x32, 0x3f, 0x28, 0x25, 0x6e, 0x63, 0x74, 0x79, 0x5a, 0x57,
        0x40, 0x4d, 0xda, 0xd7, 0xc0, 0xcd, 0xee, 0xe3, 0xf4, 0xf9, 0xb2, 0xbf, 0xa8, 0xa5,
        0x86, 0x8b, 0x9c, 0x91, 0x0a, 0x07, 0x10, 0x1d, 0x3e, 0x33, 0x24, 0x29, 0x62, 0x6f,
        0x78, 0x75, 0x56, 0x5b, 0x4c, 0x41, 0x61, 0x6c, 0x7b, 0x76, 0x55, 0x58, 0x4f, 0x42,
        0x09, 0x04, 0x13, 0x1e, 0x3d, 0x30, 0x27, 0x2a, 0xb1, 0xbc, 0xab, 0xa6, 0x85, 0x88,
        0x9f, 0x92, 0xd9, 0xd4, 0xc3, 0xce, 0xed, 0xe0, 0xf7, 0xfa, 0xb7, 0xba, 0xad, 0xa0,
        0x83, 0x8e, 0x99, 0x94, 0xdf, 0xd2, 0xc5, 0xc8, 0xeb, 0xe6, 0xf1, 0xfc, 0x67, 0x6a,
        0x7d, 0x70, 0x53, 0x5e, 0x49, 0x44, 0x0f, 0x02, 0x15, 0x18, 0x3b, 0x36, 0x21, 0x2c,
        0x0c, 0x01, 0x16, 0x1b, 0x38, 0x35, 0x22, 0x2f, 0x64, 0x69, 0x7e, 0x73, 0x50, 0x5d,
        0x4a, 0x47, 0xdc, 0xd1, 0xc6, 0xcb, 0xe8, 0xe5, 0xf2, 0xff, 0xb4, 0xb9, 0xae, 0xa3,
        0x80, 0x8d, 0x9a, 0x97
    ];
    proof {
        assert(t@ =~= mul13_seq());
    }
    t
}

/// Multiplication by 14 in the block field.
pub open spec fn mul14_seq() -> Seq<u8> {
    seq![
        0x00, 0x0e, 0x1c, 0x12, 0x38, 0x36, 0x24, 0x2a, 0x70, 0x7e, 0x6c, 0x62, 0x48, 0x46,
        0x54, 0x5a, 0xe0, 0xee, 0xfc, 0xf2, 0xd8, 0xd6, 0xc4, 0xca, 0x90, 0x9e, 0x8c, 0x82,
        0xa8, 0xa6, 0xb4, 0xba, 0xdb, 0xd5, 0xc7, 0xc9, 0xe3, 0xed, 0xff, 0xf1, 0xab, 0xa5,
        0xb7, 0xb9, 0x93, 0x9d, 0x8f, 0x81, 0x3b, 0x35, 0x27, 0x29, 0x03, 0x0d, 0x1f, 0x11,
        0x4b, 0x45, 0x57, 0x59, 0x73, 0x7d, 0x6f, 0x61, 0xad, 0xa3, 0xb1, 0xbf, 0x95, 0x9b,
        0x89, 0x87, 0xdd, 0xd3, 0xc1, 0xcf, 0xe5, 0xeb, 0xf9, 0xf7, 0x4d, 0x43, 0x51, 0x5f,
        0x75, 0x7b, 0x69, 0x67, 0x3d, 0x33, 0x21, 0x2f, 0x05, 0x0b, 0x19, 0x17, 0x76, 0x78,
        0x6a, 0x64, 0x4e, 0x40, 0x52, 0x5c, 0x06, 0x08, 0x1a, 0x14, 0x3e, 0x30, 0x22, 0x2c,
        0x96, 0x98, 0x8a, 0x84, 0xae, 0xa0, 0xb2, 0xbc, 0xe6, 0xe8, 0xfa, 0xf4, 0xde, 0xd0,
        0xc2, 0xcc, 0x41, 0x4f, 0x5d, 0x53, 0x79, 0x77, 0x65, 0x6b, 0x31, 0x3f, 0x2d, 0x23,
        0x09, 0x07, 0x15, 0x1b, 0xa1, 0xaf, 0xbd, 0xb3, 0x99, 0x97, 0x85, 0x8b, 0xd1, 0xdf,
        0xcd, 0xc3, 0xe9, 0xe7, 0xf5, 0xfb, 0x9a, 0x94, 0x86, 0x88, 0xa2, 0xac, 0xbe, 0xb0,
        0xea, 0xe4, 0xf6, 0xf8, 0xd2, 0xdc, 0xce, 0xc0, 0x7a, 0x74, 0x66, 0x68, 0x42, 0x4c,
        0x5e, 0x50, 0x0a, 0x04, 0x16, 0x18, 0x32, 0x3c, 0x2e, 0x20, 0xec, 0xe2, 0xf0, 0xfe,
        0xd4, 0xda, 0xc8, 0xc6, 0x9c, 0x92, 0x80, 0x8e, 0xa4, 0xaa, 0xb8, 0xb6, 0x0c, 0x02,
        0x10, 0x1e, 0x34, 0x3a, 0x28, 0x26, 0x7c, 0x72, 0x60, 0x6e, 0x44, 0x4a, 0x58, 0x56,
        0x37, 0x39, 0x2b, 0x25, 0x0f, 0x01, 0x13, 0x1d, 0x47, 0x49, 0x5b, 0x55, 0x7f, 0x71,
        0x63, 0x6d, 0xd7, 0xd9, 0xcb, 0xc5, 0xef, 0xe1, 0xf3, 0xfd, 0xa7, 0xa9, 0xbb, 0xb5,
        0x9f, 0x91, 0x83, 0x8d
    ]
}

/// Multiplication by 14 in the block field.
pub fn mul14_table() -> (t: Vec<u8>)
    ensures
        t@ == mul14_seq(),
{
    let t: Vec<u8> = vec![
        0x00, 0x0e, 0x1c, 0x12, 0x38, 0x36, 0x24, 0x2a, 0x70, 0x7e, 0x6c, 0x62, 0x48, 0x46,
        0x54, 0x5a, 0xe0, 0xee, 0xfc, 0xf2, 0xd8, 0xd6, 0xc4, 0xca, 0x90, 0x9e, 0x8c, 0x82,
        0xa8, 0xa6, 0xb4, 0xba, 0xdb, 0xd5, 0xc7, 0xc9, 0xe3, 0xed, 0xff, 0xf1, 0xab, 0xa5,
        0xb7, 0xb9, 0x93, 0x9d, 0x8f, 0x81, 0x3b, 0x35, 0x27, 0x29, 0x03, 0x0d, 0x1f, 0x11,
        0x4b, 0x45, 0x57, 0x59, 0x73, 0x7d, 0x6f, 0x61, 0xad, 0xa3, 0xb1, 0xbf, 0x95, 0x9b,
        0x89, 0x87, 0xdd, 0xd3, 0xc1, 0xcf, 0xe5, 0xeb, 0xf9, 0xf7, 0x4d, 0x43, 0x51, 0x5f,
        0x75, 0x7b, 0x69, 0x67, 0x3d, 0x33, 0x21, 0x2f, 0x05, 0x0b, 0x19, 0x17, 0x76, 0x78,
        0x6a, 0x64, 0x4e, 0x40, 0x52, 0x5c, 0x06, 0x08, 0x1a, 0x14, 0x3e, 0x30, 0x22, 0x2c,
        0x96, 0x98, 0x8a, 0x84, 0xae, 0xa0, 0xb2, 0xbc, 0xe6, 0xe8, 0xfa, 0xf4, 0xde, 0xd0,
        0xc2, 0xcc, 0x41, 0x4f, 0x5d, 0x53, 0x79, 0x77, 0x65, 0x6b, 0x31, 0x3f, 0x2d, 0x23,
        0x09, 0x07, 0x15, 0x1b, 0xa1, 0xaf, 0xbd, 0xb3, 0x99, 0x97, 0x85, 0x8b, 0xd1, 0xdf,
        0xcd, 0xc3, 0xe9, 0xe7, 0xf5, 0xfb, 0x9a, 0x94, 0x86, 0x88, 0xa2, 0xac, 0xbe, 0xb0,
        0xea, 0xe4, 0xf6, 0xf8, 0xd2, 0xdc, 0xce, 0xc0, 0x7a, 0x74, 0x66, 0x68, 0x42, 0x4c,
        0x5e, 0x50, 0x0a, 0x04, 0x16, 0x18, 0x32, 0x3c, 0x2e, 0x20, 0xec, 0xe2, 0xf0, 0xfe,
        0xd4, 0xda, 0xc8, 0xc6, 0x9c, 0x92, 0x80, 0x8e, 0xa4, 0xaa, 0xb8, 0xb6, 0x0c, 0x02,
        0x10, 0x1e, 0x34, 0x3a, 0x28, 0x26, 0x7c, 0x72, 0x60, 0x6e, 0x44, 0x4a, 0x58, 0x56,
        0x37, 0x39, 0x2b, 0x25, 0x0f, 0x01, 0x13, 0x1d, 0x47, 0x49, 0x5b, 0x55, 0x7f, 0x71,
        0x63, 0x6d, 0xd7, 0xd9, 0xcb, 0xc5, 0xef, 0xe1, 0xf3, 0xfd, 0xa7, 0xa9, 0xbb, 0xb5,
        0x9f, 0x91, 0x83, 0x8d
    ];
    proof {
        assert(t@ =~= mul14_seq());
    }
    t
}

/// The round constants of the key schedule.
pub open spec fn rcon_seq() -> Seq<u8> {
    seq![
        0x8d, 0x01, 0x02, 0x04, 0x08, 0x10, 0x20, 0x40, 0x80, 0x1b, 0x36
    ]
}

/// The round constants of the key schedule.
pub fn rcon_table() -> (t: Vec<u8>)
    ensures
        t@ == rcon_seq(),
{
    let t: Vec<u8> = vec![
        0x8d, 0x01, 0x02, 0x04, 0x08, 0x10, 0x20, 0x40, 0x80, 0x1b, 0x36
    ];
    proof {
        assert(t@ =~= rcon_seq());
    }
    t
}

/// A 16-byte sequence.
pub open spec fn wf16(s: Seq<u8>) -> bool {
    s.len() == 16
}

/// Column `i` of the expanded key schedule: the first four columns are the
/// cipher key itself; every fourth later column folds the substituted,
/// rotated previous column with a round constant; the rest fold the previous
/// column into the one four back.
pub open spec fn ks_col(data: Seq<u8>, i: int) -> Seq<u8>
    recommends
        wf16(data),
        0 <= i < 44,
    decreases i,
{
    if i < 4 {
        data.subrange(4 * i, 4 * i + 4)
    } else {
        let prev = ks_col(data, i - 1);
        let back = ks_col(data, i - 4);
        if i % 4 == 0 {
            seq![
                (sbox_seq()[prev[1] as int] ^ rcon_seq()[i / 4] ^ back[0]) as u8,
                (sbox_seq()[prev[2] as int] ^ back[1]) as u8,
                (sbox_seq()[prev[3] as int] ^ back[2]) as u8,
                (sbox_seq()[prev[0] as int] ^ back[3]) as u8,
            ]
        } else {
            seq![
                (back[0] ^ prev[0]) as u8,
                (back[1] ^ prev[1]) as u8,
                (back[2] ^ prev[2]) as u8,
                (back[3] ^ prev[3]) as u8,
            ]
        }
    }
}

/// Round key `k` of the schedule: four consecutive columns.
pub open spec fn expanded_key_words(data: Seq<u8>, k: int) -> Seq<u8>
    recommends
        wf16(data),
        0 <= k < 11,
{
    ks_col(data, 4 * k) + ks_col(data, 4 * k + 1) + ks_col(data, 4 * k + 2) + ks_col(
        data,
        4 * k + 3,
    )
}

/// The byte-wise sum of a state and a round key.
pub open spec fn spec_add_round_key(s: Seq<u8>, k: Seq<u8>) -> Seq<u8> {
    Seq::new(16, |i: int| (s[i] ^ k[i]) as u8)
}

/// Every byte replaced through the substitution box.
pub open spec fn spec_sub_bytes(s: Seq<u8>) -> Seq<u8> {
    Seq::new(16, |i: int| sbox_seq()[s[i] as int])
}

/// Every byte replaced through the inverse substitution box.
pub open spec fn spec_inv_sub_bytes(s: Seq<u8>) -> Seq<u8> {
    Seq::new(16, |i: int| inv_sbox_seq()[s[i] as int])
}

/// Rows rotated left by their row index.
pub open spec fn spec_shift_rows(s: Seq<u8>) -> Seq<u8> {
    Seq::new(
        16,
        |i: int|
            {
                let row = i % 4;
                let col = i / 4;
                if row == 0 {
                    s[i]
                } else {
                    s[((col + row) * 4 + row) % 16]
                }
            },
    )
}

/// Rows rotated right by their row index.
pub open spec fn spec_inv_shift_rows(s: Seq<u8>) -> Seq<u8> {
    Seq::new(
        16,
        |i: int|
            {
                let row = i % 4;
                let col = i / 4;
                if row == 0 {
                    s[i]
                } else {
                    s[((col + 4 - row) * 4 + row) % 16]
                }
            },
    )
}

/// Every column mixed by the forward column matrix.
pub open spec fn spec_mix_columns(s: Seq<u8>) -> Seq<u8> {
    Seq::new(
        16,
        |i: int|
            {
                let c = 4 * (i / 4);
                if i % 4 == 0 {
                    (mul2_seq()[s[c] as int] ^ mul3_seq()[s[c + 1] as int] ^ s[c + 2] ^ s[c
                        + 3]) as u8
                } else if i % 4 == 1 {
                    (s[c] ^ mul2_seq()[s[c + 1] as int] ^ mul3_seq()[s[c + 2] as int] ^ s[c
                        + 3]) as u8
                } else if i % 4 == 2 {
                    (s[c] ^ s[c + 1] ^ mul2_seq()[s[c + 2] as int] ^ mul3_seq()[s[c
                        + 3] as int]) as u8
                } else {
                    (mul3_seq()[s[c] as int] ^ s[c + 1] ^ s[c + 2] ^ mul2_seq()[s[c
                        + 3] as int]) as u8
                }
            },
    )
}

/// Every column mixed by the inverse column matrix.
pub open spec fn spec_inv_mix_columns(s: Seq<u8>) -> Seq<u8> {
    Seq::new(
        16,
        |i: int|
            {
                let c = 4 * (i / 4);
                if i % 4 == 0 {
                    (mul14_seq()[s[c] as int] ^ mul11_seq()[s[c + 1] as int] ^ mul13_seq()[s[c
                        + 2] as int] ^ mul9_seq()[s[c + 3] as int]) as u8
                } else if i % 4 == 1 {
                    (mul9_seq()[s[c] as int] ^ mul14_seq()[s[c + 1] as int] ^ mul11_seq()[s[c
                        + 2] as int] ^ mul13_seq()[s[c + 3] as int]) as u8
                } else if i % 4 == 2 {
                    (mul13_seq()[s[c] as int] ^ mul9_seq()[s[c + 1] as int] ^ mul14_seq()[s[c
                        + 2] as int] ^ mul11_seq()[s[c + 3] as int]) as u8
                } else {
                    (mul11_seq()[s[c] as int] ^ mul13_seq()[s[c + 1] as int] ^ mul9_seq()[s[c
                        + 2] as int] ^ mul14_seq()[s[c + 3] as int]) as u8
                }
            },
    )
}

/// The state after the encryption rounds from `i` onwards: full rounds up to
/// the ninth, then the final round without the column mix.
pub open spec fn spec_encrypt_rounds(key: Seq<u8>, s: Seq<u8>, i: int) -> Seq<u8>
    recommends
        1 <= i <= 10,
    decreases 10 - i,
{
    if i >= 10 {
        spec_add_round_key(spec_shift_rows(spec_sub_bytes(s)), expanded_key_words(key, 10))
    } else {
        spec_encrypt_rounds(
            key,
            spec_add_round_key(
                spec_mix_columns(spec_shift_rows(spec_sub_bytes(s))),
                expanded_key_words(key, i),
            ),
            i + 1,
        )
    }
}

/// The ciphertext of one block.
pub open spec fn spec_encrypt(key: Seq<u8>, block: Seq<u8>) -> Seq<u8>
    recommends
        wf16(key),
        wf16(block),
{
    spec_encrypt_rounds(key, spec_add_round_key(block, expanded_key_words(key, 0)), 1)
}

/// The state after the decryption rounds from `i` onwards, unwinding the
/// encryption rounds in reverse.
pub open spec fn spec_decrypt_rounds(key: Seq<u8>, s: Seq<u8>, i: int) -> Seq<u8>
    recommends
        1 <= i <= 10,
    decreases 10 - i,
{
    if i >= 10 {
        spec_add_round_key(spec_inv_sub_bytes(spec_inv_shift_rows(s)), expanded_key_words(key, 0))
    } else {
        spec_decrypt_rounds(
            key,
            spec_inv_mix_columns(
                spec_add_round_key(
                    spec_inv_sub_bytes(spec_inv_shift_rows(s)),
                    expanded_key_words(key, 10 - i),
                ),
            ),
            i + 1,
        )
    }
}

/// The plaintext of one block.
pub open spec fn spec_decrypt(key: Seq<u8>, block: Seq<u8>) -> Seq<u8>
    recommends
        wf16(key),
        wf16(block),
{
    spec_decrypt_rounds(key, spec_add_round_key(block, expanded_key_words(key, 10)), 1)
}

/// A cipher key.
#[derive(Debug, PartialEq)]
pub struct Key {
    pub data: Vec<u8>,
}

impl Clone for Key {
    /// A clone carries exactly the same bytes.
    fn clone(&self) -> (r: Self)
        ensures
            r.data@ == self.data@,
    {
        Key { data: crate::clone_copy_vec(&self.data) }
    }
}

impl Key {
    /// A key is sixteen bytes.
    pub open spec fn wf(&self) -> bool {
        wf16(self.data@)
    }

    /// A key from its sixteen bytes.
    pub fn new(data: &[u8; 16]) -> (r: Self)
        ensures
            r.wf(),
            r.data@ == data@,
    {
        let mut d: Vec<u8> = Vec::new();
        let mut i: usize = 0;
        proof {
            assert(d@ =~= data@.subrange(0, 0));
        }
        while i < 16
            invariant
                0 <= i <= 16,
                data@.len() == 16,
                d@ == data@.subrange(0, i as int),
            decreases 16 - i,
        {
            d.push(data[i]);
            proof {
                assert(d@ =~= data@.subrange(0, i as int + 1));
            }
            i = i + 1;
        }
        proof {
            assert(data@.subrange(0, 16) =~= data@);
        }
        Key { data: d }
    }

    /// The eleven round keys grown from this key.
    pub fn expand(&self) -> (r: Vec<Key>)
        requires
            self.wf(),
        ensures
            r@.len() == 11,
            forall|k: int|
                0 <= k < 11 ==> (#[trigger] r@[k]).data@ == expanded_key_words(self.data@, k),
            forall|k: int| 0 <= k < 11 ==> (#[trigger] r@[k]).wf(),
    {
        let sb = sbox_table();
        let rc = rcon_table();

        // The table of 44 columns, flattened four bytes per column.
        let mut cols: Vec<u8> = Vec::new();
        let mut i: usize = 0;
        proof {
            assert(cols@ =~= self.data@.subrange(0, 0));
        }
        while i < 16
            invariant
                0 <= i <= 16,
                self.data@.len() == 16,
                cols@ == self.data@.subrange(0, i as int),
            decreases 16 - i,
        {
            cols.push(self.data[i]);
            proof {
                assert(cols@ =~= self.data@.subrange(0, i as int + 1));
            }
            i = i + 1;
        }
        proof {
            assert(self.data@.subrange(0, 16) =~= self.data@);
            assert forall|c: int| 0 <= c < 4 implies cols@.subrange(4 * c, 4 * c + 4) == ks_col(
                self.data@,
                c,
            ) by {
                assert(cols@.subrange(4 * c, 4 * c + 4) =~= self.data@.subrange(4 * c, 4 * c + 4));
            }
        }

        let mut j: usize = 4;
        while j < 44
            invariant
                4 <= j <= 44,
                self.wf(),
                cols@.len() == 4 * j,
                sb@ == sbox_seq(),
                rc@ == rcon_seq(),
                forall|c: int|
                    0 <= c < j ==> #[trigger] cols@.subrange(4 * c, 4 * c + 4) == ks_col(
                        self.data@,
                        c,
                    ),
            decreases 44 - j,
        {
            let ghost oldcols = cols@;
            let ghost prev = ks_col(self.data@, j as int - 1);
            let ghost back = ks_col(self.data@, j as int - 4);
            let p = 4 * (j - 1);
            let b = 4 * (j - 4);
            proof {
                assert(oldcols.subrange(4 * (j as int - 1), 4 * (j as int - 1) + 4) == prev);
                assert(oldcols.subrange(4 * (j as int - 4), 4 * (j as int - 4) + 4) == back);
                assert(cols@[p as int] == prev[0] && cols@[p as int + 1] == prev[1] && cols@[p
                    as int + 2] == prev[2] && cols@[p as int + 3] == prev[3]);
                assert(cols@[b as int] == back[0] && cols@[b as int + 1] == back[1] && cols@[b
                    as int + 2] == back[2] && cols@[b as int + 3] == back[3]);
            }
            if j % 4 == 0 {
                let rcon_byte = rc[j / 4];
                cols.push(sb[cols[p + 1] as usize] ^ rcon_byte ^ cols[b]);
                cols.push(sb[cols[p + 2] as usize] ^ cols[b + 1]);
                cols.push(sb[cols[p + 3] as usize] ^ cols[b + 2]);
                cols.push(sb[cols[p] as usize] ^ cols[b + 3]);
            } else {
                cols.push(cols[b] ^ cols[p]);
                cols.push(cols[b + 1] ^ cols[p + 1]);
                cols.push(cols[b + 2] ^ cols[p + 2]);
                cols.push(cols[b + 3] ^ cols[p + 3]);
            }
            proof {
                assert(cols@.subrange(4 * j as int, 4 * j as int + 4) =~= ks_col(
                    self.data@,
                    j as int,
                ));
                assert forall|c: int|
                    0 <= c < j + 1 implies #[trigger] cols@.subrange(4 * c, 4 * c + 4) == ks_col(
                    self.data@,
                    c,
                ) by {
                    if c < j {
                        assert(cols@.subrange(4 * c, 4 * c + 4) =~= oldcols.subrange(
                            4 * c,
                            4 * c + 4,
                        ));
                    }
                }
            }
            j = j + 1;
        }

        // Gather the columns into eleven round keys.
        let mut keys: Vec<Key> = Vec::new();
        let mut k: usize = 0;
        while k < 11
            invariant
                0 <= k <= 11,
                self.wf(),
                cols@.len() == 176,
                keys@.len() == k,
                forall|c: int|
                    0 <= c < 44 ==> #[trigger] cols@.subrange(4 * c, 4 * c + 4) == ks_col(
                        self.data@,
                        c,
                    ),
                forall|x: int|
                    0 <= x < k ==> (#[trigger] keys@[x]).data@ == expanded_key_words(
                        self.data@,
                        x,
                    ),
                forall|x: int| 0 <= x < k ==> (#[trigger] keys@[x]).wf(),
            decreases 11 - k,
        {
            let mut d: Vec<u8> = Vec::new();
            let mut m: usize = 0;
            proof {
                assert(d@ =~= cols@.subrange(16 * k as int, 16 * k as int));
            }
            while m < 16
                invariant
                    0 <= m <= 16,
                    k < 11,
                    cols@.len() == 176,
                    d@ == cols@.subrange(16 * k as int, 16 * k as int + m as int),
                decreases 16 - m,
            {
                d.push(cols[16 * k + m]);
                proof {
                    assert(d@ =~= cols@.subrange(16 * k as int, 16 * k as int + m as int + 1));
                }
                m = m + 1;
            }
            proof {
                let ki = k as int;
                assert(cols@.subrange(16 * ki, 16 * ki + 16) =~= cols@.subrange(
                    4 * (4 * ki),
                    4 * (4 * ki) + 4,
                ) + cols@.subrange(4 * (4 * ki + 1), 4 * (4 * ki + 1) + 4) + cols@.subrange(
                    4 * (4 * ki + 2),
                    4 * (4 * ki + 2) + 4,
                ) + cols@.subrange(4 * (4 * ki + 3), 4 * (4 * ki + 3) + 4));
            }
            keys.push(Key { data: d });
            k = k + 1;
        }
        keys
    }
}

/// One cipher block.
#[derive(PartialEq, Debug)]
pub struct Block {
    pub data: Vec<u8>,
}

impl Clone for Block {
    /// A clone carries exactly the same bytes.
    fn clone(&self) -> (r: Self)
        ensures
            r.data@ == self.data@,
    {
        Block { data: crate::clone_copy_vec(&self.data) }
    }
}

impl Block {
    /// A block is sixteen bytes.
    pub open spec fn wf(&self) -> bool {
        wf16(self.data@)
    }

    /// A block from its sixteen bytes.
    pub fn new(data: &[u8; 16]) -> (r: Block)
        ensures
            r.wf(),
            r.data@ == data@,
    {
        let mut d: Vec<u8> = Vec::new();
        let mut i: usize = 0;
        proof {
            assert(d@ =~= data@.subrange(0, 0));
        }
        while i < 16
            invariant
                0 <= i <= 16,
                data@.len() == 16,
                d@ == data@.subrange(0, i as int),
            decreases 16 - i,
        {
            d.push(data[i]);
            proof {
                assert(d@ =~= data@.subrange(0, i as int + 1));
            }
            i = i + 1;
        }
        proof {
            assert(data@.subrange(0, 16) =~= data@);
        }
        Block { data: d }
    }

    /// The block's bytes.
    pub fn as_bytes(&self) -> (r: &Vec<u8>)
        ensures
            r@ == self.data@,
    {
        &self.data
    }

    /// Fold a round key into the state.
    pub fn add_round_key(&mut self, key: &Key)
        requires
            old(self).wf(),
            key.wf(),
        ensures
            final(self).wf(),
            final(self).data@ == spec_add_round_key(old(self).data@, key.data@),
    {
        let mut nd: Vec<u8> = Vec::new();
        let mut i: usize = 0;
        while i < 16
            invariant
                0 <= i <= 16,
                self.data@.len() == 16,
                key.data@.len() == 16,
                self.data@ == old(self).data@,
                nd@.len() == i,
                forall|l: int| 0 <= l < i ==> nd@[l] == spec_add_round_key(self.data@, key.data@)[l],
            decreases 16 - i,
        {
            nd.push(self.data[i] ^ key.data[i]);
            i = i + 1;
        }
        self.data = nd;
        proof {
            assert(self.data@ =~= spec_add_round_key(old(self).data@, key.data@));
        }
    }

    /// Substitute every byte of the state.
    pub fn sub_bytes(&mut self)
        requires
            old(self).wf(),
        ensures
            final(self).wf(),
            final(self).data@ == spec_sub_bytes(old(self).data@),
    {
        let sb = sbox_table();
        let mut nd: Vec<u8> = Vec::new();
        let mut i: usize = 0;
        while i < 16
            invariant
                0 <= i <= 16,
                self.data@.len() == 16,
                self.data@ == old(self).data@,
                sb@ == sbox_seq(),
                nd@.len() == i,
                forall|l: int| 0 <= l < i ==> nd@[l] == spec_sub_bytes(self.data@)[l],
            decreases 16 - i,
        {
            nd.push(sb[self.data[i] as usize]);
            i = i + 1;
        }
        self.data = nd;
        proof {
            assert(self.data@ =~= spec_sub_bytes(old(self).data@));
        }
    }

    /// Invert the byte substitution.
    pub fn inv_sub_bytes(&mut self)
        requires
            old(self).wf(),
        ensures
            final(self).wf(),
            final(self).data@ == spec_inv_sub_bytes(old(self).data@),
    {
        let sb = inv_sbox_table();
        let mut nd: Vec<u8> = Vec::new();
        let mut i: usize = 0;
        while i < 16
            invariant
                0 <= i <= 16,
                self.data@.len() == 16,
                self.data@ == old(self).data@,
                sb@ == inv_sbox_seq(),
                nd@.len() == i,
                forall|l: int| 0 <= l < i ==> nd@[l] == spec_inv_sub_bytes(self.data@)[l],
            decreases 16 - i,
        {
            nd.push(sb[self.data[i] as usize]);
            i = i + 1;
        }
        self.data = nd;
        proof {
            assert(self.data@ =~= spec_inv_sub_bytes(old(self).data@));
        }
    }

    /// Rotate every row left by its row index.
    pub fn shift_rows(&mut self)
        requires
            old(self).wf(),
        ensures
            final(self).wf(),
            final(self).data@ == spec_shift_rows(old(self).data@),
    {
        let mut nd: Vec<u8> = Vec::new();
        let mut i: usize = 0;
        while i < 16
            invariant
                0 <= i <= 16,
                self.data@.len() == 16,
                self.data@ == old(self).data@,
                nd@.len() == i,
                forall|l: int| 0 <= l < i ==> nd@[l] == spec_shift_rows(self.data@)[l],
            decreases 16 - i,
        {
            let row = i % 4;
            let col = i / 4;
            if row == 0 {
                nd.push(self.data[i]);
            } else {
                nd.push(self.data[((col + row) * 4 + row) % 16]);
            }
            i = i + 1;
        }
        self.data = nd;
        proof {
            assert(self.data@ =~= spec_shift_rows(old(self).data@));
        }
    }

    /// Rotate every row right by its row index.
    pub fn inv_shift_rows(&mut self)
        requires
            old(self).wf(),
        ensures
            final(self).wf(),
            final(self).data@ == spec_inv_shift_rows(old(self).data@),
    {
        let mut nd: Vec<u8> = Vec::new();
        let mut i: usize = 0;
        while i < 16
            invariant
                0 <= i <= 16,
                self.data@.len() == 16,
                self.data@ == old(self).data@,
                nd@.len() == i,
                forall|l: int| 0 <= l < i ==> nd@[l] == spec_inv_shift_rows(self.data@)[l],
            decreases 16 - i,
        {
            let row = i % 4;
            let col = i / 4;
            if row == 0 {
                nd.push(self.data[i]);
            } else {
                nd.push(self.data[((col + 4 - row) * 4 + row) % 16]);
            }
            i = i + 1;
        }
        self.data = nd;
        proof {
            assert(self.data@ =~= spec_inv_shift_rows(old(self).data@));
        }
    }

    /// Mix every column by the forward column matrix.
    pub fn mix_columns(&mut self)
        requires
            old(self).wf(),
        ensures
            final(self).wf(),
            final(self).data@ == spec_mix_columns(old(self).data@),
    {
        let m2 = mul2_table();
        let m3 = mul3_table();
        let mut nd: Vec<u8> = Vec::new();
        let mut i: usize = 0;
        while i < 16
            invariant
                0 <= i <= 16,
                self.data@.len() == 16,
                self.data@ == old(self).data@,
                m2@ == mul2_seq(),
                m3@ == mul3_seq(),
                nd@.len() == i,
                forall|l: int| 0 <= l < i ==> nd@[l] == spec_mix_columns(self.data@)[l],
            decreases 16 - i,
        {
            let c = 4 * (i / 4);
            let b0 = self.data[c];
            let b1 = self.data[c + 1];
            let b2 = self.data[c + 2];
            let b3 = self.data[c + 3];
            if i % 4 == 0 {
                nd.push(m2[b0 as usize] ^ m3[b1 as usize] ^ b2 ^ b3);
            } else if i % 4 == 1 {
                nd.push(b0 ^ m2[b1 as usize] ^ m3[b2 as usize] ^ b3);
            } else if i % 4 == 2 {
                nd.push(b0 ^ b1 ^ m2[b2 as usize] ^ m3[b3 as usize]);
            } else {
                nd.push(m3[b0 as usize] ^ b1 ^ b2 ^ m2[b3 as usize]);
            }
            i = i + 1;
        }
        self.data = nd;
        proof {
            assert(self.data@ =~= spec_mix_columns(old(self).data@));
        }
    }

    /// Mix every column by the inverse column matrix.
    pub fn inv_mix_columns(&mut self)
        requires
            old(self).wf(),
        ensures
            final(self).wf(),
            final(self).data@ == spec_inv_mix_columns(old(self).data@),
    {
        let m9 = mul9_table();
        let m11 = mul11_table();
        let m13 = mul13_table();
        let m14 = mul14_table();
        let mut nd: Vec<u8> = Vec::new();
        let mut i: usize = 0;
        while i < 16
            invariant
                0 <= i <= 16,
                self.data@.len() == 16,
                self.data@ == old(self).data@,
                m9@ == mul9_seq(),
                m11@ == mul11_seq(),
                m13@ == mul13_seq(),
                m14@ == mul14_seq(),
                nd@.len() == i,
                forall|l: int| 0 <= l < i ==> nd@[l] == spec_inv_mix_columns(self.data@)[l],
            decreases 16 - i,
        {
            let c = 4 * (i / 4);
            let b0 = self.data[c];
            let b1 = self.data[c + 1];
            let b2 = self.data[c + 2];
            let b3 = self.data[c + 3];
            if i % 4 == 0 {
                nd.push(m14[b0 as usize] ^ m11[b1 as usize] ^ m13[b2 as usize] ^ m9[b3 as usize]);
            } else if i % 4 == 1 {
                nd.push(m9[b0 as usize] ^ m14[b1 as usize] ^ m11[b2 as usize] ^ m13[b3 as usize]);
            } else if i % 4 == 2 {
                nd.push(m13[b0 as usize] ^ m9[b1 as usize] ^ m14[b2 as usize] ^ m11[b3 as usize]);
            } else {
                nd.push(m11[b0 as usize] ^ m13[b1 as usize] ^ m9[b2 as usize] ^ m14[b3 as usize]);
            }
            i = i + 1;
        }
        self.data = nd;
        proof {
            assert(self.data@ =~= spec_inv_mix_columns(old(self).data@));
        }
    }
}

/// Encrypt one block under the key.
pub fn encrypt(key: &Key, block: &Block) -> (r: Block)
    requires
        key.wf(),
        block.wf(),
    ensures
        r.wf(),
        r.data@ == spec_encrypt(key.data@, block.data@),
{
    let mut state = block.clone();
    let keys = key.expand();

    state.add_round_key(&keys[0]);

    let mut i: usize = 1;
    while i < 10
        invariant
            1 <= i <= 10,
            key.wf(),
            keys@.len() == 11,
            forall|k: int|
                0 <= k < 11 ==> (#[trigger] keys@[k]).data@ == expanded_key_words(key.data@, k),
            forall|k: int| 0 <= k < 11 ==> (#[trigger] keys@[k]).wf(),
            state.wf(),
            spec_encrypt_rounds(key.data@, state.data@, i as int) == spec_encrypt(
                key.data@,
                block.data@,
            ),
        decreases 10 - i,
    {
        state.sub_bytes();
        state.shift_rows();
        state.mix_columns();
        state.add_round_key(&keys[i]);
        i = i + 1;
    }

    state.sub_bytes();
    state.shift_rows();
    state.add_round_key(&keys[10]);

    state
}

/// Decrypt one block under the key.
pub fn decrypt(key: &Key, block: &Block) -> (r: Block)
    requires
        key.wf(),
        block.wf(),
    ensures
        r.wf(),
        r.data@ == spec_decrypt(key.data@, block.data@),
{
    let mut state = block.clone();
    let keys = key.expand();

    state.add_round_key(&keys[10]);

    let mut i: usize = 1;
    while i < 10
        invariant
            1 <= i <= 10,
            key.wf(),
            keys@.len() == 11,
            forall|k: int|
                0 <= k < 11 ==> (#[trigger] keys@[k]).data@ == expanded_key_words(key.data@, k),
            forall|k: int| 0 <= k < 11 ==> (#[trigger] keys@[k]).wf(),
            state.wf(),
            spec_decrypt_rounds(key.data@, state.data@, i as int) == spec_decrypt(
                key.data@,
                block.data@,
            ),
        decreases 10 - i,
    {
        state.inv_shift_rows();
        state.inv_sub_bytes();
        state.add_round_key(&keys[10 - i]);
        state.inv_mix_columns();
        i = i + 1;
    }

    state.inv_shift_rows();
    state.inv_sub_bytes();
    state.add_round_key(&keys[0]);

    state
}

} // verus!
