use aj_rs::call::finish_i32;
use aj_rs::call::finish_i64;
use aj_rs::call::finish_text;
use aj_rs::call::out_i32;
use aj_rs::call::out_text;
use aj_rs::call::CallOutcome;
use aj_rs::error::AjError;
use aj_rs::marshal::build;
use aj_rs::marshal::Param;
use aj_rs::ops;
use aj_rs::value::Tag;
use aj_rs::value::TypedValue;

fn returned(ret: TypedValue, outs: Vec<TypedValue>) -> CallOutcome {
    CallOutcome::Returned(ret, outs)
}

#[test]
fn version_query_returns_provider_string() {
    let op = ops::ver_s();
    assert_eq!(op.name, "VerS");
    assert_eq!(op.params.len(), 0);
    assert_eq!(op.ret, Tag::Text);
    let outcome = returned(TypedValue::from_text("1.0.0"), vec![]);
    assert_eq!(finish_text(&outcome).unwrap(), "1.0.0");
}

#[test]
fn failed_coordinate_query_fail_closes_outputs() {
    let op = ops::client_to_screen(4242);
    assert_eq!(op.name, "ClientToScreen");
    assert_eq!(op.params.len(), 3);
    let status: i32 = -2147352567;
    let outcome = CallOutcome::Failed(status);
    let mut x: i32 = 7;
    let mut y: i32 = 9;
    let r = ops::client_to_screen_result(&outcome, &mut x, &mut y);
    assert_eq!(x, -1);
    assert_eq!(y, -1);
    assert_eq!(r, Err(AjError::InvocationError(status)));
}

#[test]
fn failed_call_fail_closes_text_outputs_too() {
    let outcome = CallOutcome::Failed(-1);
    let mut version = String::from("stale");
    let mut version_name = String::from("stale");
    let mut build_number: i32 = 77;
    let mut system_dir = String::from("stale");
    let r = ops::get_os_result(
        &outcome,
        &mut version,
        &mut version_name,
        &mut build_number,
        &mut system_dir,
    );
    assert_eq!(version, "");
    assert_eq!(version_name, "");
    assert_eq!(build_number, -1);
    assert_eq!(system_dir, "");
    assert_eq!(r, Err(AjError::InvocationError(-1)));
}

#[test]
fn os_query_reads_slots_in_declared_order() {
    let outcome = returned(
        TypedValue::from_i32(1),
        vec![
            TypedValue::from_text("10.0"),
            TypedValue::from_text("Pro"),
            TypedValue::from_i32(19045),
            TypedValue::from_text("C:\\Windows"),
        ],
    );
    let mut version = String::new();
    let mut version_name = String::new();
    let mut build_number: i32 = 0;
    let mut system_dir = String::new();
    let r = ops::get_os_result(
        &outcome,
        &mut version,
        &mut version_name,
        &mut build_number,
        &mut system_dir,
    );
    assert_eq!(r, Ok(1));
    assert_eq!(version, "10.0");
    assert_eq!(version_name, "Pro");
    assert_eq!(build_number, 19045);
    assert_eq!(system_dir, "C:\\Windows");
}

#[test]
fn client_size_slots_are_height_then_width() {
    let op = ops::get_client_size(11);
    assert_eq!(op.name, "GetClientSize");
    let outcome = returned(
        TypedValue::from_i32(1),
        vec![TypedValue::from_i32(600), TypedValue::from_i32(800)],
    );
    let mut width: i32 = 0;
    let mut height: i32 = 0;
    let r = ops::get_client_size_result(&outcome, &mut width, &mut height);
    assert_eq!(r, Ok(1));
    assert_eq!(height, 600);
    assert_eq!(width, 800);
}

#[test]
fn window_size_slots_are_width_then_height() {
    let outcome = returned(
        TypedValue::from_i32(1),
        vec![TypedValue::from_i32(800), TypedValue::from_i32(600)],
    );
    let mut width: i32 = 0;
    let mut height: i32 = 0;
    let r = ops::get_window_size_result(&outcome, &mut width, &mut height);
    assert_eq!(r, Ok(1));
    assert_eq!(width, 800);
    assert_eq!(height, 600);
}

#[test]
fn missing_slots_read_back_as_sentinels() {
    let outcome = returned(TypedValue::from_i32(0), vec![]);
    let mut x: i32 = 5;
    let mut y: i32 = 5;
    let r = ops::get_mouse_pos_result(&outcome, &mut x, &mut y);
    assert_eq!(r, Ok(0));
    assert_eq!(x, -1);
    assert_eq!(y, -1);
}

#[test]
fn uncoercible_slots_read_back_as_sentinels() {
    let outcome = returned(
        TypedValue::from_i32(1),
        vec![TypedValue::from_text("not a number"), TypedValue::from_i32(3)],
    );
    assert_eq!(out_i32(&outcome, 0), -1);
    assert_eq!(out_i32(&outcome, 1), 3);
    let text_outcome = returned(
        TypedValue::from_i32(1),
        vec![TypedValue::from_bool(true)],
    );
    assert_eq!(out_text(&text_outcome, 0), "");
}

#[test]
fn primary_returns_propagate_coercion_failures() {
    let text_ret = returned(TypedValue::from_text("abc"), vec![]);
    assert_eq!(finish_i32(&text_ret), Err(AjError::CoercionError));
    assert_eq!(finish_i64(&text_ret), Err(AjError::CoercionError));
    let bool_ret = returned(TypedValue::from_bool(true), vec![]);
    assert_eq!(finish_text(&bool_ret), Err(AjError::CoercionError));
    let num_ret = returned(TypedValue::from_i32(42), vec![]);
    assert_eq!(finish_text(&num_ret).unwrap(), "42");
}

#[test]
fn find_pic_declares_the_full_signature() {
    let sim: f64 = 0.9;
    let op = ops::find_pic(0, 0, 1920, 1080, "button.bmp", "202020-101010", sim.to_bits(), 0, 1);
    assert_eq!(op.name, "FindPic");
    assert_eq!(op.ret, Tag::Int32);
    assert_eq!(op.params.len(), 12);
    match &op.params[6] {
        Param::In(TypedValue::Float64Bits(bits)) => assert_eq!(f64::from_bits(*bits), 0.9),
        other => panic!("unexpected parameter: {:?}", other),
    }
    assert!(matches!(op.params[9], Param::Out(Tag::Text)));
    assert!(matches!(op.params[10], Param::Out(Tag::Int32)));
    assert!(matches!(op.params[11], Param::Out(Tag::Int32)));
    let args = build(op.params);
    assert_eq!(args.len(), 12);
    // reversed: the out slots come first, the first declared input last
    assert!(matches!(args[0], TypedValue::ByRef(_)));
    assert!(matches!(args[1], TypedValue::ByRef(_)));
    assert!(matches!(args[2], TypedValue::ByRef(_)));
    assert!(args[11].equals(&TypedValue::from_i32(0)));
    assert!(args[6].equals(&TypedValue::from_text("202020-101010")));
    assert!(args[7].equals(&TypedValue::from_text("button.bmp")));
}

#[test]
fn find_pic_reads_back_match_position() {
    let outcome = returned(
        TypedValue::from_i32(0),
        vec![
            TypedValue::from_text("button.bmp"),
            TypedValue::from_i32(154),
            TypedValue::from_i32(208),
        ],
    );
    let mut pic = String::new();
    let mut x: i32 = -5;
    let mut y: i32 = -5;
    let r = ops::find_pic_result(&outcome, &mut pic, &mut x, &mut y);
    assert_eq!(r, Ok(0));
    assert_eq!(pic, "button.bmp");
    assert_eq!(x, 154);
    assert_eq!(y, 208);
}

#[test]
fn empty_string_arguments_are_indistinguishable_from_absent_ones() {
    let op = ops::find_window(0, "", 0, "", "Untitled - Notepad", 0, 0);
    assert_eq!(op.params.len(), 7);
    assert!(matches!(op.params[1], Param::In(TypedValue::Empty)));
    assert!(matches!(op.params[3], Param::In(TypedValue::Empty)));
    match &op.params[4] {
        Param::In(v) => assert!(v.equals(&TypedValue::from_text("Untitled - Notepad"))),
        other => panic!("unexpected parameter: {:?}", other),
    }
}

#[test]
fn i64_primary_return_round_trips() {
    let op = ops::get_remote_proc_address(4, 0, "kernel32.dll", "LoadLibraryW");
    assert_eq!(op.name, "GetRemoteProcAddress");
    assert_eq!(op.ret, Tag::Int64);
    let outcome = returned(TypedValue::from_i64(0x7ffb_1234_5678), vec![]);
    assert_eq!(finish_i64(&outcome), Ok(0x7ffb_1234_5678));
}

#[test]
fn ocr_declares_thirteen_parameters() {
    let op = ops::ocr(0, 0, 100, 50, "word", "ffffff-000000", 0.8f64.to_bits(), 0, 0, 0, 0, "", "");
    assert_eq!(op.name, "Ocr");
    assert_eq!(op.params.len(), 13);
    assert_eq!(op.ret, Tag::Text);
    assert!(matches!(op.params[11], Param::In(TypedValue::Empty)));
    assert!(matches!(op.params[12], Param::In(TypedValue::Empty)));
}
