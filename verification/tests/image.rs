use plugin_loader::image::{decode_image, image_words, RawEntry, RECORD_WORDS, TABLE_SYMBOL};
use plugin_loader::table::{Callable, ExportEntry, TypeId};

fn raw(type_id: u64, name_addr: usize, name_len: usize, addr: usize) -> RawEntry {
    RawEntry { type_id: TypeId(type_id), name_addr, name_len, callable: Callable(addr) }
}

#[test]
fn table_symbol_is_the_agreed_name() {
    assert_eq!(TABLE_SYMBOL, "rust_plugin_typeinfo");
}

#[test]
fn image_words_counts_the_count_word_and_the_records() {
    assert_eq!(RECORD_WORDS, 4);
    assert_eq!(image_words(0), Some(1));
    assert_eq!(image_words(1), Some(5));
    assert_eq!(image_words(2), Some(9));
    assert_eq!(image_words(1000), Some(4001));
}

#[test]
fn image_words_refuses_a_count_that_no_memory_holds() {
    let most_words = isize::MAX as usize / 8;
    let most = (most_words - 1) / 4;
    assert_eq!(image_words(most), Some(1 + 4 * most));
    assert_eq!(image_words(most + 1), None);
    assert_eq!(image_words(usize::MAX / 4), None);
    assert_eq!(image_words(usize::MAX), None);
}

#[test]
fn decode_reads_the_records_in_order() {
    let words = [2, 11, 0x1000, 3, 0x2000, 22, 0x1008, 6, 0x2040];
    assert_eq!(
        decode_image(&words),
        Some(vec![raw(11, 0x1000, 3, 0x2000), raw(22, 0x1008, 6, 0x2040)])
    );
}

#[test]
fn decode_of_an_empty_table() {
    assert_eq!(decode_image(&[0]), Some(Vec::new()));
}

#[test]
fn decode_ignores_words_behind_the_last_record() {
    let words = [1, 7, 8, 9, 10, 99, 98, 97, 96, 95];
    assert_eq!(decode_image(&words), Some(vec![raw(7, 8, 9, 10)]));
    assert_eq!(decode_image(&[0, 5, 5, 5, 5]), Some(Vec::new()));
}

#[test]
fn decode_refuses_words_without_a_count() {
    assert_eq!(decode_image(&[]), None);
}

#[test]
fn decode_refuses_a_table_cut_short() {
    assert_eq!(decode_image(&[1]), None);
    assert_eq!(decode_image(&[1, 7, 8, 9]), None);
    assert_eq!(decode_image(&[2, 7, 8, 9, 10]), None);
    assert_eq!(decode_image(&[2, 7, 8, 9, 10, 1, 2, 3]), None);
}

#[test]
fn decode_refuses_a_count_beyond_every_length() {
    assert_eq!(decode_image(&[usize::MAX, 1, 2, 3, 4]), None);
    assert_eq!(decode_image(&[usize::MAX / 4 + 1, 1, 2, 3, 4]), None);
}

#[test]
fn decode_keeps_every_bit_of_a_word() {
    let words = [1, usize::MAX, usize::MAX - 1, usize::MAX - 2, usize::MAX - 3];
    assert_eq!(
        decode_image(&words),
        Some(vec![raw(usize::MAX as u64, usize::MAX - 1, usize::MAX - 2, usize::MAX - 3)])
    );
}

#[test]
fn decode_reads_as_many_words_as_image_words_says() {
    for count in 0..5usize {
        let total = image_words(count).unwrap();
        let mut words = vec![0usize; total];
        words[0] = count;
        for (i, w) in words.iter_mut().enumerate().skip(1) {
            *w = 100 + i;
        }
        let entries = decode_image(&words).unwrap();
        assert_eq!(entries.len(), count);
        for (i, e) in entries.iter().enumerate() {
            let at = 1 + 4 * i;
            assert_eq!(*e, raw(100 + at as u64, 101 + at, 102 + at, 103 + at));
        }
        assert_eq!(decode_image(&words[..total - 1]), None);
    }
}

#[test]
fn named_makes_the_entry_of_a_record() {
    let e = raw(11, 0x1000, 3, 0x2000).named("foo".to_string());
    assert_eq!(
        e,
        ExportEntry { type_id: TypeId(11), name: "foo".to_string(), callable: Callable(0x2000) }
    );
}
