use diffraction_surface::error::SUCCESS_STATUS;
use diffraction_surface::functions::str_to_mut_i8_ptr;
use diffraction_surface::param_names::{
    copy_from, param_name, LINES_PER_UM_INDEX, NAME_CAPACITY,
};
use diffraction_surface::{
    is_loader_reason, DllMain, UserParamNames, ACCEPTED, DLL_PROCESS_ATTACH, DLL_PROCESS_DETACH,
    DLL_THREAD_ATTACH, DLL_THREAD_DETACH,
};

fn characters(text: &str) -> Vec<i8> {
    text.bytes().map(|byte| byte as i8).collect()
}

#[test]
fn first_parameter_is_lines_per_um() {
    let mut buffer = [0x55i8; NAME_CAPACITY];
    buffer[0] = 1;
    let status = UserParamNames(Some(&mut buffer));
    assert_eq!(status, 0);
    assert_eq!(buffer[..9], characters("lines/um\0")[..]);
    assert_eq!(buffer[9..], [0x55i8; NAME_CAPACITY - 9]);
}

#[test]
fn index_zero_has_the_empty_name() {
    let mut buffer = [0x55i8; NAME_CAPACITY];
    buffer[0] = 0;
    assert_eq!(UserParamNames(Some(&mut buffer)), SUCCESS_STATUS);
    assert_eq!(buffer[0], 0);
    assert_eq!(buffer[1..], [0x55i8; NAME_CAPACITY - 1]);
}

#[test]
fn unmapped_indices_have_the_empty_name() {
    for index in [2i8, 3, 8, 30, 127, -1, -128] {
        let mut buffer = [0x55i8; NAME_CAPACITY];
        buffer[0] = index;
        assert_eq!(UserParamNames(Some(&mut buffer)), SUCCESS_STATUS);
        assert_eq!(buffer[0], 0, "index {}", index);
        assert_eq!(buffer[1..], [0x55i8; NAME_CAPACITY - 1], "index {}", index);
    }
}

#[test]
fn no_buffer_is_no_failure() {
    assert_eq!(UserParamNames(None), 0);
}

#[test]
fn name_table() {
    assert_eq!(LINES_PER_UM_INDEX, 1);
    assert_eq!(param_name(1), "lines/um");
    assert_eq!(param_name(0), "");
    assert_eq!(param_name(2), "");
    assert_eq!(param_name(-1), "");
    for index in i8::MIN..=i8::MAX {
        assert!(param_name(index).len() + 1 <= NAME_CAPACITY);
    }
}

#[test]
fn name_buffer_has_31_characters() {
    assert_eq!(NAME_CAPACITY, 31);
}

#[test]
fn c_string_of_a_name() {
    assert_eq!(
        str_to_mut_i8_ptr("lines/um"),
        vec![108i8, 105, 110, 101, 115, 47, 117, 109, 0]
    );
    assert_eq!(str_to_mut_i8_ptr("lines/um").len(), 9);
    assert_eq!(str_to_mut_i8_ptr(""), vec![0i8]);
    assert_eq!(str_to_mut_i8_ptr("a"), vec![97i8, 0]);
}

#[test]
fn c_string_of_a_name_beyond_ascii() {
    assert_eq!(str_to_mut_i8_ptr("\u{b5}m"), vec![-62i8, -75, 109, 0]);
}

#[test]
fn copy_replaces_the_start_of_the_buffer() {
    let mut buffer = [9i8; NAME_CAPACITY];
    copy_from(&mut buffer, &vec![1i8, 2, 3]);
    assert_eq!(buffer[..3], [1i8, 2, 3]);
    assert_eq!(buffer[3..], [9i8; NAME_CAPACITY - 3]);
    copy_from(&mut buffer, &Vec::new());
    assert_eq!(buffer[..3], [1i8, 2, 3]);
    copy_from(&mut buffer, &vec![7i8; NAME_CAPACITY]);
    assert_eq!(buffer, [7i8; NAME_CAPACITY]);
}

#[test]
fn loader_notifications_are_accepted() {
    assert_eq!(DLL_PROCESS_DETACH, 0);
    assert_eq!(DLL_PROCESS_ATTACH, 1);
    assert_eq!(DLL_THREAD_ATTACH, 2);
    assert_eq!(DLL_THREAD_DETACH, 3);
    for reason in [DLL_PROCESS_ATTACH, DLL_PROCESS_DETACH, DLL_THREAD_ATTACH, DLL_THREAD_DETACH] {
        assert!(is_loader_reason(reason));
        assert_eq!(DllMain(reason), 1);
        assert_eq!(DllMain(reason), ACCEPTED);
    }
}

#[test]
fn other_reasons_are_not_the_loaders() {
    for reason in [4u32, 5, 100, u32::MAX] {
        assert!(!is_loader_reason(reason));
    }
}
