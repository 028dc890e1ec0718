use unicode_layout::flags::{
    PyUnicode_1BYTE_KIND, PyUnicode_2BYTE_KIND, PyUnicode_4BYTE_KIND, PyUnicode_WCHAR_KIND,
    SSTATE_INTERNED_IMMORTAL, SSTATE_INTERNED_MORTAL, SSTATE_NOT_INTERNED,
};
use unicode_layout::layout::PyASCIIObject;

fn header(state: u32) -> PyASCIIObject {
    PyASCIIObject {
        length: 0,
        hash: 0,
        state,
        wstr: 0,
    }
}

fn pack(interned: u32, kind: u32, compact: u32, ascii: u32, ready: u32) -> u32 {
    interned | (kind << 2) | (compact << 5) | (ascii << 6) | (ready << 7)
}

#[test]
fn ascii_object_bitfield() {
    let mut o = PyASCIIObject {
        length: 0,
        hash: 0,
        state: 0,
        wstr: 0,
    };

    assert_eq!(o.interned(), 0);
    assert_eq!(o.kind(), 0);
    assert_eq!(o.compact(), 0);
    assert_eq!(o.ascii(), 0);
    assert_eq!(o.ready(), 0);

    for i in 0..4u32 {
        o.state = i;
        assert_eq!(o.interned(), i);
    }

    for i in 0..8u32 {
        o.state = i << 2;
        assert_eq!(o.kind(), i);
    }

    o.state = 1 << 5;
    assert_eq!(o.compact(), 1);

    o.state = 1 << 6;
    assert_eq!(o.ascii(), 1);

    o.state = 1 << 7;
    assert_eq!(o.ready(), 1);
}

#[test]
fn round_trip_recovers_low_byte() {
    let words: [u32; 6] = [0, 0xe5, 0xb0, 0xff, 0xdead_0037, 0xffff_ff80];
    for w in words {
        let o = header(w);
        let repacked: u32 = pack(o.interned(), o.kind(), o.compact(), o.ascii(), o.ready());
        assert_eq!(repacked, w & 0xff);
    }
}

#[test]
fn round_trip_recovers_all_valid_field_tuples() {
    for interned in 0..4u32 {
        for kind in 0..8u32 {
            for compact in 0..2u32 {
                for ascii in 0..2u32 {
                    for ready in 0..2u32 {
                        let o = header(pack(interned, kind, compact, ascii, ready));
                        assert_eq!(o.interned(), interned);
                        assert_eq!(o.kind(), kind);
                        assert_eq!(o.compact(), compact);
                        assert_eq!(o.ascii(), ascii);
                        assert_eq!(o.ready(), ready);
                    }
                }
            }
        }
    }
}

#[test]
fn interned_accepts_full_two_bit_range() {
    // 0, 1 and 2 are the host runtime's states; 3 is unused but decoded
    // without failing.
    assert_eq!(header(SSTATE_NOT_INTERNED).interned(), 0);
    assert_eq!(header(SSTATE_INTERNED_MORTAL).interned(), 1);
    assert_eq!(header(SSTATE_INTERNED_IMMORTAL).interned(), 2);
    assert_eq!(header(3).interned(), 3);
    // High garbage above the field never leaks into it.
    assert_eq!(header(0xffff_fffc).interned(), 0);
}

#[test]
fn kind_constants_decode_to_themselves() {
    for kind in [
        PyUnicode_WCHAR_KIND,
        PyUnicode_1BYTE_KIND,
        PyUnicode_2BYTE_KIND,
        PyUnicode_4BYTE_KIND,
    ] {
        assert_eq!(header(kind << 2).kind(), kind);
    }
}
