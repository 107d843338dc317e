//! The operation surface: one descriptor per method of the automation
//! object, and a reader for each operation with output parameters.
//!
//! Each descriptor states the method's name, its declared parameter list in
//! caller-visible order — the marshaller reverses it for the call
//! convention — and the tag of its primary return value; that is all an
//! operation is, the generic machinery does the rest.  A double-valued
//! input (a similarity threshold) is taken as its raw bit pattern, since
//! the binding only passes it through.
//!
//! The readers place each output slot of the outcome into the caller's
//! variables under the fail-closed policy and read the primary return
//! value; when the remote call failed, every output parameter is left at
//! its sentinel and the failure is the returned error.

use vstd::prelude::*;

use crate::call::finish_i32;
use crate::call::finish_i32_model;
use crate::call::out_i32;
use crate::call::out_i32_model;
use crate::call::out_text;
use crate::call::out_text_model;
use crate::call::CallOutcome;
use crate::call::OpCall;
use crate::error::AjError;
use crate::marshal::Param;
use crate::marshal::ParamModel;
use crate::value::text_value;
use crate::value::Tag;
use crate::value::TypedValue;
use crate::value::ValueModel;

verus! {

/// The `VerS` operation: the provider's version string.
pub fn ver_s() -> (c: OpCall)
    ensures
        c.name@ == "VerS"@,
        c.ret == Tag::Text,
        c.params@.len() == 0,
{
    let params: Vec<Param> = Vec::new();
    OpCall { name: "VerS".to_owned(), params, ret: Tag::Text }
}

/// The `SetPath` operation: set the provider's working path.
pub fn set_path(path: &str) -> (c: OpCall)
    ensures
        c.name@ == "SetPath"@,
        c.ret == Tag::Int32,
        c.params@.len() == 1,
        c.params@[0]@ == ParamModel::In(text_value(path@)),
{
    let mut params: Vec<Param> = Vec::new();
    params.push(Param::In(TypedValue::from_text(path)));
    OpCall { name: "SetPath".to_owned(), params, ret: Tag::Int32 }
}

/// The `SetErrorMsg` operation: choose how the provider reports errors.
pub fn set_error_msg(msg: i32) -> (c: OpCall)
    ensures
        c.name@ == "SetErrorMsg"@,
        c.ret == Tag::Int32,
        c.params@.len() == 1,
        c.params@[0]@ == ParamModel::In(ValueModel::Int32(msg)),
{
    let mut params: Vec<Param> = Vec::new();
    params.push(Param::In(TypedValue::from_i32(msg)));
    OpCall { name: "SetErrorMsg".to_owned(), params, ret: Tag::Int32 }
}

/// The `SetThread` operation: set the provider's worker thread count.
pub fn set_thread(tn: i32) -> (c: OpCall)
    ensures
        c.name@ == "SetThread"@,
        c.ret == Tag::Int32,
        c.params@.len() == 1,
        c.params@[0]@ == ParamModel::In(ValueModel::Int32(tn)),
{
    let mut params: Vec<Param> = Vec::new();
    params.push(Param::In(TypedValue::from_i32(tn)));
    OpCall { name: "SetThread".to_owned(), params, ret: Tag::Int32 }
}

/// The `GetModulePath` operation: look a module's path up in a process.
pub fn get_module_path(pid: i32, hwnd: i32, mn: &str, kind: i32) -> (c: OpCall)
    ensures
        c.name@ == "GetModulePath"@,
        c.ret == Tag::Text,
        c.params@.len() == 4,
        c.params@[0]@ == ParamModel::In(ValueModel::Int32(pid)),
        c.params@[1]@ == ParamModel::In(ValueModel::Int32(hwnd)),
        c.params@[2]@ == ParamModel::In(text_value(mn@)),
        c.params@[3]@ == ParamModel::In(ValueModel::Int32(kind)),
{
    let mut params: Vec<Param> = Vec::new();
    params.push(Param::In(TypedValue::from_i32(pid)));
    params.push(Param::In(TypedValue::from_i32(hwnd)));
    params.push(Param::In(TypedValue::from_text(mn)));
    params.push(Param::In(TypedValue::from_i32(kind)));
    OpCall { name: "GetModulePath".to_owned(), params, ret: Tag::Text }
}

/// The `GetMachineCode` operation: the machine's hardware fingerprint.
pub fn get_machine_code() -> (c: OpCall)
    ensures
        c.name@ == "GetMachineCode"@,
        c.ret == Tag::Text,
        c.params@.len() == 0,
{
    let params: Vec<Param> = Vec::new();
    OpCall { name: "GetMachineCode".to_owned(), params, ret: Tag::Text }
}

/// The `GetOs` operation: identify the operating system.
/// Output parameters, in declared order: `version`, `version_name`, `build_number`, `system_dir`; read the
/// outcome back with [`get_os_result`].
pub fn get_os(kind: i32) -> (c: OpCall)
    ensures
        c.name@ == "GetOs"@,
        c.ret == Tag::Int32,
        c.params@.len() == 5,
        c.params@[0]@ == ParamModel::Out(Tag::Text),
        c.params@[1]@ == ParamModel::Out(Tag::Text),
        c.params@[2]@ == ParamModel::Out(Tag::Int32),
        c.params@[3]@ == ParamModel::Out(Tag::Text),
        c.params@[4]@ == ParamModel::In(ValueModel::Int32(kind)),
{
    let mut params: Vec<Param> = Vec::new();
    params.push(Param::Out(Tag::Text));
    params.push(Param::Out(Tag::Text));
    params.push(Param::Out(Tag::Int32));
    params.push(Param::Out(Tag::Text));
    params.push(Param::In(TypedValue::from_i32(kind)));
    OpCall { name: "GetOs".to_owned(), params, ret: Tag::Int32 }
}

/// Read back the outcome of [`get_os`]: place each output slot into
/// the caller's variables under the fail-closed policy, and return the
/// primary value or the failure.
pub fn get_os_result(outcome: &CallOutcome, version: &mut String, version_name: &mut String, build_number: &mut i32, system_dir: &mut String) -> (r: Result<i32, AjError>)
    ensures
        r == finish_i32_model(outcome@),
        final(version)@ == out_text_model(outcome@, 0),
        final(version_name)@ == out_text_model(outcome@, 1),
        *final(build_number) == out_i32_model(outcome@, 2),
        final(system_dir)@ == out_text_model(outcome@, 3),
{
    *version = out_text(outcome, 0);
    *version_name = out_text(outcome, 1);
    *build_number = out_i32(outcome, 2);
    *system_dir = out_text(outcome, 3);
    finish_i32(outcome)
}

/// The `EnumWindow` operation: enumerate windows matching the given filters.
pub fn enum_window(parent: i32, pro_name: &str, pro_id: i32, class: &str, title: &str, kind: i32, flag: i32, t: i32) -> (c: OpCall)
    ensures
        c.name@ == "EnumWindow"@,
        c.ret == Tag::Text,
        c.params@.len() == 8,
        c.params@[0]@ == ParamModel::In(ValueModel::Int32(parent)),
        c.params@[1]@ == ParamModel::In(text_value(pro_name@)),
        c.params@[2]@ == ParamModel::In(ValueModel::Int32(pro_id)),
        c.params@[3]@ == ParamModel::In(text_value(class@)),
        c.params@[4]@ == ParamModel::In(text_value(title@)),
        c.params@[5]@ == ParamModel::In(ValueModel::Int32(kind)),
        c.params@[6]@ == ParamModel::In(ValueModel::Int32(flag)),
        c.params@[7]@ == ParamModel::In(ValueModel::Int32(t)),
{
    let mut params: Vec<Param> = Vec::new();
    params.push(Param::In(TypedValue::from_i32(parent)));
    params.push(Param::In(TypedValue::from_text(pro_name)));
    params.push(Param::In(TypedValue::from_i32(pro_id)));
    params.push(Param::In(TypedValue::from_text(class)));
    params.push(Param::In(TypedValue::from_text(title)));
    params.push(Param::In(TypedValue::from_i32(kind)));
    params.push(Param::In(TypedValue::from_i32(flag)));
    params.push(Param::In(TypedValue::from_i32(t)));
    OpCall { name: "EnumWindow".to_owned(), params, ret: Tag::Text }
}

/// The `FindWindow` operation: find one window matching the given filters.
pub fn find_window(parent: i32, pro_name: &str, pro_id: i32, class: &str, title: &str, kind: i32, t: i32) -> (c: OpCall)
    ensures
        c.name@ == "FindWindow"@,
        c.ret == Tag::Int32,
        c.params@.len() == 7,
        c.params@[0]@ == ParamModel::In(ValueModel::Int32(parent)),
        c.params@[1]@ == ParamModel::In(text_value(pro_name@)),
        c.params@[2]@ == ParamModel::In(ValueModel::Int32(pro_id)),
        c.params@[3]@ == ParamModel::In(text_value(class@)),
        c.params@[4]@ == ParamModel::In(text_value(title@)),
        c.params@[5]@ == ParamModel::In(ValueModel::Int32(kind)),
        c.params@[6]@ == ParamModel::In(ValueModel::Int32(t)),
{
    let mut params: Vec<Param> = Vec::new();
    params.push(Param::In(TypedValue::from_i32(parent)));
    params.push(Param::In(TypedValue::from_text(pro_name)));
    params.push(Param::In(TypedValue::from_i32(pro_id)));
    params.push(Param::In(TypedValue::from_text(class)));
    params.push(Param::In(TypedValue::from_text(title)));
    params.push(Param::In(TypedValue::from_i32(kind)));
    params.push(Param::In(TypedValue::from_i32(t)));
    OpCall { name: "FindWindow".to_owned(), params, ret: Tag::Int32 }
}

/// The `CreateWindows` operation: create a provider window.
pub fn create_windows(x: i32, y: i32, width: i32, height: i32, e_width: i32, e_height: i32, kind: i32) -> (c: OpCall)
    ensures
        c.name@ == "CreateWindows"@,
        c.ret == Tag::Int32,
        c.params@.len() == 7,
        c.params@[0]@ == ParamModel::In(ValueModel::Int32(x)),
        c.params@[1]@ == ParamModel::In(ValueModel::Int32(y)),
        c.params@[2]@ == ParamModel::In(ValueModel::Int32(width)),
        c.params@[3]@ == ParamModel::In(ValueModel::Int32(height)),
        c.params@[4]@ == ParamModel::In(ValueModel::Int32(e_width)),
        c.params@[5]@ == ParamModel::In(ValueModel::Int32(e_height)),
        c.params@[6]@ == ParamModel::In(ValueModel::Int32(kind)),
{
    let mut params: Vec<Param> = Vec::new();
    params.push(Param::In(TypedValue::from_i32(x)));
    params.push(Param::In(TypedValue::from_i32(y)));
    params.push(Param::In(TypedValue::from_i32(width)));
    params.push(Param::In(TypedValue::from_i32(height)));
    params.push(Param::In(TypedValue::from_i32(e_width)));
    params.push(Param::In(TypedValue::from_i32(e_height)));
    params.push(Param::In(TypedValue::from_i32(kind)));
    OpCall { name: "CreateWindows".to_owned(), params, ret: Tag::Int32 }
}

/// The `GetRemoteProcAddress` operation: resolve a function's address in another process.
pub fn get_remote_proc_address(pid: i32, hwnd: i32, mn: &str, func: &str) -> (c: OpCall)
    ensures
        c.name@ == "GetRemoteProcAddress"@,
        c.ret == Tag::Int64,
        c.params@.len() == 4,
        c.params@[0]@ == ParamModel::In(ValueModel::Int32(pid)),
        c.params@[1]@ == ParamModel::In(ValueModel::Int32(hwnd)),
        c.params@[2]@ == ParamModel::In(text_value(mn@)),
        c.params@[3]@ == ParamModel::In(text_value(func@)),
{
    let mut params: Vec<Param> = Vec::new();
    params.push(Param::In(TypedValue::from_i32(pid)));
    params.push(Param::In(TypedValue::from_i32(hwnd)));
    params.push(Param::In(TypedValue::from_text(mn)));
    params.push(Param::In(TypedValue::from_text(func)));
    OpCall { name: "GetRemoteProcAddress".to_owned(), params, ret: Tag::Int64 }
}

/// The `KQHouTai` operation: begin background mode against a window.
pub fn kq_hou_tai(hwnd: i32, screen: &str, keyboard: &str, mouse: &str, flag: &str, kind: i32) -> (c: OpCall)
    ensures
        c.name@ == "KQHouTai"@,
        c.ret == Tag::Int32,
        c.params@.len() == 6,
        c.params@[0]@ == ParamModel::In(ValueModel::Int32(hwnd)),
        c.params@[1]@ == ParamModel::In(text_value(screen@)),
        c.params@[2]@ == ParamModel::In(text_value(keyboard@)),
        c.params@[3]@ == ParamModel::In(text_value(mouse@)),
        c.params@[4]@ == ParamModel::In(text_value(flag@)),
        c.params@[5]@ == ParamModel::In(ValueModel::Int32(kind)),
{
    let mut params: Vec<Param> = Vec::new();
    params.push(Param::In(TypedValue::from_i32(hwnd)));
    params.push(Param::In(TypedValue::from_text(screen)));
    params.push(Param::In(TypedValue::from_text(keyboard)));
    params.push(Param::In(TypedValue::from_text(mouse)));
    params.push(Param::In(TypedValue::from_text(flag)));
    params.push(Param::In(TypedValue::from_i32(kind)));
    OpCall { name: "KQHouTai".to_owned(), params, ret: Tag::Int32 }
}

/// The `GBHouTai` operation: end background mode.
pub fn gb_hou_tai() -> (c: OpCall)
    ensures
        c.name@ == "GBHouTai"@,
        c.ret == Tag::Int32,
        c.params@.len() == 0,
{
    let params: Vec<Param> = Vec::new();
    OpCall { name: "GBHouTai".to_owned(), params, ret: Tag::Int32 }
}

/// The `GetCPU` operation: identify the processor.
/// Output parameters, in declared order: `kind`, `cpu_id`; read the
/// outcome back with [`get_cpu_result`].
pub fn get_cpu() -> (c: OpCall)
    ensures
        c.name@ == "GetCPU"@,
        c.ret == Tag::Int32,
        c.params@.len() == 2,
        c.params@[0]@ == ParamModel::Out(Tag::Text),
        c.params@[1]@ == ParamModel::Out(Tag::Text),
{
    let mut params: Vec<Param> = Vec::new();
    params.push(Param::Out(Tag::Text));
    params.push(Param::Out(Tag::Text));
    OpCall { name: "GetCPU".to_owned(), params, ret: Tag::Int32 }
}

/// Read back the outcome of [`get_cpu`]: place each output slot into
/// the caller's variables under the fail-closed policy, and return the
/// primary value or the failure.
pub fn get_cpu_result(outcome: &CallOutcome, kind: &mut String, cpu_id: &mut String) -> (r: Result<i32, AjError>)
    ensures
        r == finish_i32_model(outcome@),
        final(kind)@ == out_text_model(outcome@, 0),
        final(cpu_id)@ == out_text_model(outcome@, 1),
{
    *kind = out_text(outcome, 0);
    *cpu_id = out_text(outcome, 1);
    finish_i32(outcome)
}

/// The `GetClientSize` operation: measure a window's client area.
/// Output parameters, in declared order: `height`, `width`; read the
/// outcome back with [`get_client_size_result`].
pub fn get_client_size(hwnd: i32) -> (c: OpCall)
    ensures
        c.name@ == "GetClientSize"@,
        c.ret == Tag::Int32,
        c.params@.len() == 3,
        c.params@[0]@ == ParamModel::In(ValueModel::Int32(hwnd)),
        c.params@[1]@ == ParamModel::Out(Tag::Int32),
        c.params@[2]@ == ParamModel::Out(Tag::Int32),
{
    let mut params: Vec<Param> = Vec::new();
    params.push(Param::In(TypedValue::from_i32(hwnd)));
    params.push(Param::Out(Tag::Int32));
    params.push(Param::Out(Tag::Int32));
    OpCall { name: "GetClientSize".to_owned(), params, ret: Tag::Int32 }
}

/// Read back the outcome of [`get_client_size`]: place each output slot into
/// the caller's variables under the fail-closed policy, and return the
/// primary value or the failure.
pub fn get_client_size_result(outcome: &CallOutcome, width: &mut i32, height: &mut i32) -> (r: Result<i32, AjError>)
    ensures
        r == finish_i32_model(outcome@),
        *final(width) == out_i32_model(outcome@, 1),
        *final(height) == out_i32_model(outcome@, 0),
{
    *height = out_i32(outcome, 0);
    *width = out_i32(outcome, 1);
    finish_i32(outcome)
}

/// The `GetWindowSize` operation: measure a window.
/// Output parameters, in declared order: `width`, `height`; read the
/// outcome back with [`get_window_size_result`].
pub fn get_window_size(hwnd: i32) -> (c: OpCall)
    ensures
        c.name@ == "GetWindowSize"@,
        c.ret == Tag::Int32,
        c.params@.len() == 3,
        c.params@[0]@ == ParamModel::In(ValueModel::Int32(hwnd)),
        c.params@[1]@ == ParamModel::Out(Tag::Int32),
        c.params@[2]@ == ParamModel::Out(Tag::Int32),
{
    let mut params: Vec<Param> = Vec::new();
    params.push(Param::In(TypedValue::from_i32(hwnd)));
    params.push(Param::Out(Tag::Int32));
    params.push(Param::Out(Tag::Int32));
    OpCall { name: "GetWindowSize".to_owned(), params, ret: Tag::Int32 }
}

/// Read back the outcome of [`get_window_size`]: place each output slot into
/// the caller's variables under the fail-closed policy, and return the
/// primary value or the failure.
pub fn get_window_size_result(outcome: &CallOutcome, width: &mut i32, height: &mut i32) -> (r: Result<i32, AjError>)
    ensures
        r == finish_i32_model(outcome@),
        *final(width) == out_i32_model(outcome@, 0),
        *final(height) == out_i32_model(outcome@, 1),
{
    *width = out_i32(outcome, 0);
    *height = out_i32(outcome, 1);
    finish_i32(outcome)
}

/// The `FindPic` operation: search the screen area for an image.
/// Output parameters, in declared order: `pic`, `x`, `y`; read the
/// outcome back with [`find_pic_result`].
pub fn find_pic(x1: i32, y1: i32, x2: i32, y2: i32, pic_name: &str, color_p: &str, sim_bits: u64, dir: i32, kind: i32) -> (c: OpCall)
    ensures
        c.name@ == "FindPic"@,
        c.ret == Tag::Int32,
        c.params@.len() == 12,
        c.params@[0]@ == ParamModel::In(ValueModel::Int32(x1)),
        c.params@[1]@ == ParamModel::In(ValueModel::Int32(y1)),
        c.params@[2]@ == ParamModel::In(ValueModel::Int32(x2)),
        c.params@[3]@ == ParamModel::In(ValueModel::Int32(y2)),
        c.params@[4]@ == ParamModel::In(text_value(pic_name@)),
        c.params@[5]@ == ParamModel::In(text_value(color_p@)),
        c.params@[6]@ == ParamModel::In(ValueModel::Float64Bits(sim_bits)),
        c.params@[7]@ == ParamModel::In(ValueModel::Int32(dir)),
        c.params@[8]@ == ParamModel::In(ValueModel::Int32(kind)),
        c.params@[9]@ == ParamModel::Out(Tag::Text),
        c.params@[10]@ == ParamModel::Out(Tag::Int32),
        c.params@[11]@ == ParamModel::Out(Tag::Int32),
{
    let mut params: Vec<Param> = Vec::new();
    params.push(Param::In(TypedValue::from_i32(x1)));
    params.push(Param::In(TypedValue::from_i32(y1)));
    params.push(Param::In(TypedValue::from_i32(x2)));
    params.push(Param::In(TypedValue::from_i32(y2)));
    params.push(Param::In(TypedValue::from_text(pic_name)));
    params.push(Param::In(TypedValue::from_text(color_p)));
    params.push(Param::In(TypedValue::from_f64_bits(sim_bits)));
    params.push(Param::In(TypedValue::from_i32(dir)));
    params.push(Param::In(TypedValue::from_i32(kind)));
    params.push(Param::Out(Tag::Text));
    params.push(Param::Out(Tag::Int32));
    params.push(Param::Out(Tag::Int32));
    OpCall { name: "FindPic".to_owned(), params, ret: Tag::Int32 }
}

/// Read back the outcome of [`find_pic`]: place each output slot into
/// the caller's variables under the fail-closed policy, and return the
/// primary value or the failure.
pub fn find_pic_result(outcome: &CallOutcome, pic: &mut String, x: &mut i32, y: &mut i32) -> (r: Result<i32, AjError>)
    ensures
        r == finish_i32_model(outcome@),
        final(pic)@ == out_text_model(outcome@, 0),
        *final(x) == out_i32_model(outcome@, 1),
        *final(y) == out_i32_model(outcome@, 2),
{
    *pic = out_text(outcome, 0);
    *x = out_i32(outcome, 1);
    *y = out_i32(outcome, 2);
    finish_i32(outcome)
}

/// The `FindPicEx` operation: search the screen area for images, reporting all matches.
pub fn find_pic_ex(x1: i32, y1: i32, x2: i32, y2: i32, pic_name: &str, color_p: &str, sim_bits: u64, dir: i32, kind: i32, kind_t: i32) -> (c: OpCall)
    ensures
        c.name@ == "FindPicEx"@,
        c.ret == Tag::Text,
        c.params@.len() == 10,
        c.params@[0]@ == ParamModel::In(ValueModel::Int32(x1)),
        c.params@[1]@ == ParamModel::In(ValueModel::Int32(y1)),
        c.params@[2]@ == ParamModel::In(ValueModel::Int32(x2)),
        c.params@[3]@ == ParamModel::In(ValueModel::Int32(y2)),
        c.params@[4]@ == ParamModel::In(text_value(pic_name@)),
        c.params@[5]@ == ParamModel::In(text_value(color_p@)),
        c.params@[6]@ == ParamModel::In(ValueModel::Float64Bits(sim_bits)),
        c.params@[7]@ == ParamModel::In(ValueModel::Int32(dir)),
        c.params@[8]@ == ParamModel::In(ValueModel::Int32(kind)),
        c.params@[9]@ == ParamModel::In(ValueModel::Int32(kind_t)),
{
    let mut params: Vec<Param> = Vec::new();
    params.push(Param::In(TypedValue::from_i32(x1)));
    params.push(Param::In(TypedValue::from_i32(y1)));
    params.push(Param::In(TypedValue::from_i32(x2)));
    params.push(Param::In(TypedValue::from_i32(y2)));
    params.push(Param::In(TypedValue::from_text(pic_name)));
    params.push(Param::In(TypedValue::from_text(color_p)));
    params.push(Param::In(TypedValue::from_f64_bits(sim_bits)));
    params.push(Param::In(TypedValue::from_i32(dir)));
    params.push(Param::In(TypedValue::from_i32(kind)));
    params.push(Param::In(TypedValue::from_i32(kind_t)));
    OpCall { name: "FindPicEx".to_owned(), params, ret: Tag::Text }
}

/// The `ClientToScreen` operation: map a window's client origin to screen coordinates.
/// Output parameters, in declared order: `x`, `y`; read the
/// outcome back with [`client_to_screen_result`].
pub fn client_to_screen(hwnd: i32) -> (c: OpCall)
    ensures
        c.name@ == "ClientToScreen"@,
        c.ret == Tag::Int32,
        c.params@.len() == 3,
        c.params@[0]@ == ParamModel::In(ValueModel::Int32(hwnd)),
        c.params@[1]@ == ParamModel::Out(Tag::Int32),
        c.params@[2]@ == ParamModel::Out(Tag::Int32),
{
    let mut params: Vec<Param> = Vec::new();
    params.push(Param::In(TypedValue::from_i32(hwnd)));
    params.push(Param::Out(Tag::Int32));
    params.push(Param::Out(Tag::Int32));
    OpCall { name: "ClientToScreen".to_owned(), params, ret: Tag::Int32 }
}

/// Read back the outcome of [`client_to_screen`]: place each output slot into
/// the caller's variables under the fail-closed policy, and return the
/// primary value or the failure.
pub fn client_to_screen_result(outcome: &CallOutcome, x: &mut i32, y: &mut i32) -> (r: Result<i32, AjError>)
    ensures
        r == finish_i32_model(outcome@),
        *final(x) == out_i32_model(outcome@, 0),
        *final(y) == out_i32_model(outcome@, 1),
{
    *x = out_i32(outcome, 0);
    *y = out_i32(outcome, 1);
    finish_i32(outcome)
}

/// The `ClientOrScreen` operation: map a point between client and screen coordinates.
/// Output parameters, in declared order: `x`, `y`; read the
/// outcome back with [`client_or_screen_result`].
pub fn client_or_screen(hwnd: i32, xz: i32, yz: i32, kind: i32) -> (c: OpCall)
    ensures
        c.name@ == "ClientOrScreen"@,
        c.ret == Tag::Int32,
        c.params@.len() == 6,
        c.params@[0]@ == ParamModel::In(ValueModel::Int32(hwnd)),
        c.params@[1]@ == ParamModel::In(ValueModel::Int32(xz)),
        c.params@[2]@ == ParamModel::In(ValueModel::Int32(yz)),
        c.params@[3]@ == ParamModel::Out(Tag::Int32),
        c.params@[4]@ == ParamModel::Out(Tag::Int32),
        c.params@[5]@ == ParamModel::In(ValueModel::Int32(kind)),
{
    let mut params: Vec<Param> = Vec::new();
    params.push(Param::In(TypedValue::from_i32(hwnd)));
    params.push(Param::In(TypedValue::from_i32(xz)));
    params.push(Param::In(TypedValue::from_i32(yz)));
    params.push(Param::Out(Tag::Int32));
    params.push(Param::Out(Tag::Int32));
    params.push(Param::In(TypedValue::from_i32(kind)));
    OpCall { name: "ClientOrScreen".to_owned(), params, ret: Tag::Int32 }
}

/// Read back the outcome of [`client_or_screen`]: place each output slot into
/// the caller's variables under the fail-closed policy, and return the
/// primary value or the failure.
pub fn client_or_screen_result(outcome: &CallOutcome, x: &mut i32, y: &mut i32) -> (r: Result<i32, AjError>)
    ensures
        r == finish_i32_model(outcome@),
        *final(x) == out_i32_model(outcome@, 0),
        *final(y) == out_i32_model(outcome@, 1),
{
    *x = out_i32(outcome, 0);
    *y = out_i32(outcome, 1);
    finish_i32(outcome)
}

/// The `CompressFile` operation: compress a file.
pub fn compress_file(sf: &str, df: &str, kind: i32, level: i32) -> (c: OpCall)
    ensures
        c.name@ == "CompressFile"@,
        c.ret == Tag::Int32,
        c.params@.len() == 4,
        c.params@[0]@ == ParamModel::In(text_value(sf@)),
        c.params@[1]@ == ParamModel::In(text_value(df@)),
        c.params@[2]@ == ParamModel::In(ValueModel::Int32(kind)),
        c.params@[3]@ == ParamModel::In(ValueModel::Int32(level)),
{
    let mut params: Vec<Param> = Vec::new();
    params.push(Param::In(TypedValue::from_text(sf)));
    params.push(Param::In(TypedValue::from_text(df)));
    params.push(Param::In(TypedValue::from_i32(kind)));
    params.push(Param::In(TypedValue::from_i32(level)));
    OpCall { name: "CompressFile".to_owned(), params, ret: Tag::Int32 }
}

/// The `UnCompressFile` operation: uncompress a file.
pub fn un_compress_file(sf: &str, df: &str, kind: i32) -> (c: OpCall)
    ensures
        c.name@ == "UnCompressFile"@,
        c.ret == Tag::Int32,
        c.params@.len() == 3,
        c.params@[0]@ == ParamModel::In(text_value(sf@)),
        c.params@[1]@ == ParamModel::In(text_value(df@)),
        c.params@[2]@ == ParamModel::In(ValueModel::Int32(kind)),
{
    let mut params: Vec<Param> = Vec::new();
    params.push(Param::In(TypedValue::from_text(sf)));
    params.push(Param::In(TypedValue::from_text(df)));
    params.push(Param::In(TypedValue::from_i32(kind)));
    OpCall { name: "UnCompressFile".to_owned(), params, ret: Tag::Int32 }
}

/// The `SetFont` operation: set the drawing font of a window.
pub fn set_font(hwnd: i32, name: &str, size: i32, weight: i32, italic: i32, underline: i32, strike_out: i32) -> (c: OpCall)
    ensures
        c.name@ == "SetFont"@,
        c.ret == Tag::Int32,
        c.params@.len() == 7,
        c.params@[0]@ == ParamModel::In(ValueModel::Int32(hwnd)),
        c.params@[1]@ == ParamModel::In(text_value(name@)),
        c.params@[2]@ == ParamModel::In(ValueModel::Int32(size)),
        c.params@[3]@ == ParamModel::In(ValueModel::Int32(weight)),
        c.params@[4]@ == ParamModel::In(ValueModel::Int32(italic)),
        c.params@[5]@ == ParamModel::In(ValueModel::Int32(underline)),
        c.params@[6]@ == ParamModel::In(ValueModel::Int32(strike_out)),
{
    let mut params: Vec<Param> = Vec::new();
    params.push(Param::In(TypedValue::from_i32(hwnd)));
    params.push(Param::In(TypedValue::from_text(name)));
    params.push(Param::In(TypedValue::from_i32(size)));
    params.push(Param::In(TypedValue::from_i32(weight)));
    params.push(Param::In(TypedValue::from_i32(italic)));
    params.push(Param::In(TypedValue::from_i32(underline)));
    params.push(Param::In(TypedValue::from_i32(strike_out)));
    OpCall { name: "SetFont".to_owned(), params, ret: Tag::Int32 }
}

/// The `SetTextD` operation: set the text drawing area of a window.
pub fn set_text_d(hwnd: i32, x1: i32, y1: i32, x2: i32, y2: i32, row: i32, dir: i32) -> (c: OpCall)
    ensures
        c.name@ == "SetTextD"@,
        c.ret == Tag::Int32,
        c.params@.len() == 7,
        c.params@[0]@ == ParamModel::In(ValueModel::Int32(hwnd)),
        c.params@[1]@ == ParamModel::In(ValueModel::Int32(x1)),
        c.params@[2]@ == ParamModel::In(ValueModel::Int32(y1)),
        c.params@[3]@ == ParamModel::In(ValueModel::Int32(x2)),
        c.params@[4]@ == ParamModel::In(ValueModel::Int32(y2)),
        c.params@[5]@ == ParamModel::In(ValueModel::Int32(row)),
        c.params@[6]@ == ParamModel::In(ValueModel::Int32(dir)),
{
    let mut params: Vec<Param> = Vec::new();
    params.push(Param::In(TypedValue::from_i32(hwnd)));
    params.push(Param::In(TypedValue::from_i32(x1)));
    params.push(Param::In(TypedValue::from_i32(y1)));
    params.push(Param::In(TypedValue::from_i32(x2)));
    params.push(Param::In(TypedValue::from_i32(y2)));
    params.push(Param::In(TypedValue::from_i32(row)));
    params.push(Param::In(TypedValue::from_i32(dir)));
    OpCall { name: "SetTextD".to_owned(), params, ret: Tag::Int32 }
}

/// The `DrawTextD` operation: draw text into a window.
pub fn draw_text_d(hwnd: i32, text: &str, color: &str, bk_color: &str) -> (c: OpCall)
    ensures
        c.name@ == "DrawTextD"@,
        c.ret == Tag::Int32,
        c.params@.len() == 4,
        c.params@[0]@ == ParamModel::In(ValueModel::Int32(hwnd)),
        c.params@[1]@ == ParamModel::In(text_value(text@)),
        c.params@[2]@ == ParamModel::In(text_value(color@)),
        c.params@[3]@ == ParamModel::In(text_value(bk_color@)),
{
    let mut params: Vec<Param> = Vec::new();
    params.push(Param::In(TypedValue::from_i32(hwnd)));
    params.push(Param::In(TypedValue::from_text(text)));
    params.push(Param::In(TypedValue::from_text(color)));
    params.push(Param::In(TypedValue::from_text(bk_color)));
    OpCall { name: "DrawTextD".to_owned(), params, ret: Tag::Int32 }
}

/// The `LeftClick` operation: click the left mouse button.
pub fn left_click() -> (c: OpCall)
    ensures
        c.name@ == "LeftClick"@,
        c.ret == Tag::Int32,
        c.params@.len() == 0,
{
    let params: Vec<Param> = Vec::new();
    OpCall { name: "LeftClick".to_owned(), params, ret: Tag::Int32 }
}

/// The `LeftDown` operation: press the left mouse button.
pub fn left_down() -> (c: OpCall)
    ensures
        c.name@ == "LeftDown"@,
        c.ret == Tag::Int32,
        c.params@.len() == 0,
{
    let params: Vec<Param> = Vec::new();
    OpCall { name: "LeftDown".to_owned(), params, ret: Tag::Int32 }
}

/// The `LeftUp` operation: release the left mouse button.
pub fn left_up() -> (c: OpCall)
    ensures
        c.name@ == "LeftUp"@,
        c.ret == Tag::Int32,
        c.params@.len() == 0,
{
    let params: Vec<Param> = Vec::new();
    OpCall { name: "LeftUp".to_owned(), params, ret: Tag::Int32 }
}

/// The `MoveTo` operation: move the mouse pointer.
pub fn move_to(x: i32, y: i32) -> (c: OpCall)
    ensures
        c.name@ == "MoveTo"@,
        c.ret == Tag::Int32,
        c.params@.len() == 2,
        c.params@[0]@ == ParamModel::In(ValueModel::Int32(x)),
        c.params@[1]@ == ParamModel::In(ValueModel::Int32(y)),
{
    let mut params: Vec<Param> = Vec::new();
    params.push(Param::In(TypedValue::from_i32(x)));
    params.push(Param::In(TypedValue::from_i32(y)));
    OpCall { name: "MoveTo".to_owned(), params, ret: Tag::Int32 }
}

/// The `WheelDown` operation: roll the mouse wheel down.
pub fn wheel_down() -> (c: OpCall)
    ensures
        c.name@ == "WheelDown"@,
        c.ret == Tag::Int32,
        c.params@.len() == 0,
{
    let params: Vec<Param> = Vec::new();
    OpCall { name: "WheelDown".to_owned(), params, ret: Tag::Int32 }
}

/// The `YanShi` operation: wait a random delay in the given range.
pub fn yan_shi(r_min: i32, r_max: i32) -> (c: OpCall)
    ensures
        c.name@ == "YanShi"@,
        c.ret == Tag::Int32,
        c.params@.len() == 2,
        c.params@[0]@ == ParamModel::In(ValueModel::Int32(r_min)),
        c.params@[1]@ == ParamModel::In(ValueModel::Int32(r_max)),
{
    let mut params: Vec<Param> = Vec::new();
    params.push(Param::In(TypedValue::from_i32(r_min)));
    params.push(Param::In(TypedValue::from_i32(r_max)));
    OpCall { name: "YanShi".to_owned(), params, ret: Tag::Int32 }
}

/// The `GetMousePos` operation: read the mouse pointer position.
/// Output parameters, in declared order: `x`, `y`; read the
/// outcome back with [`get_mouse_pos_result`].
pub fn get_mouse_pos(kind: i32) -> (c: OpCall)
    ensures
        c.name@ == "GetMousePos"@,
        c.ret == Tag::Int32,
        c.params@.len() == 3,
        c.params@[0]@ == ParamModel::Out(Tag::Int32),
        c.params@[1]@ == ParamModel::Out(Tag::Int32),
        c.params@[2]@ == ParamModel::In(ValueModel::Int32(kind)),
{
    let mut params: Vec<Param> = Vec::new();
    params.push(Param::Out(Tag::Int32));
    params.push(Param::Out(Tag::Int32));
    params.push(Param::In(TypedValue::from_i32(kind)));
    OpCall { name: "GetMousePos".to_owned(), params, ret: Tag::Int32 }
}

/// Read back the outcome of [`get_mouse_pos`]: place each output slot into
/// the caller's variables under the fail-closed policy, and return the
/// primary value or the failure.
pub fn get_mouse_pos_result(outcome: &CallOutcome, x: &mut i32, y: &mut i32) -> (r: Result<i32, AjError>)
    ensures
        r == finish_i32_model(outcome@),
        *final(x) == out_i32_model(outcome@, 0),
        *final(y) == out_i32_model(outcome@, 1),
{
    *x = out_i32(outcome, 0);
    *y = out_i32(outcome, 1);
    finish_i32(outcome)
}

/// The `LoadDict` operation: load a recognition dictionary.
pub fn load_dict(d_num: i32, d_name: &str) -> (c: OpCall)
    ensures
        c.name@ == "LoadDict"@,
        c.ret == Tag::Int32,
        c.params@.len() == 2,
        c.params@[0]@ == ParamModel::In(ValueModel::Int32(d_num)),
        c.params@[1]@ == ParamModel::In(text_value(d_name@)),
{
    let mut params: Vec<Param> = Vec::new();
    params.push(Param::In(TypedValue::from_i32(d_num)));
    params.push(Param::In(TypedValue::from_text(d_name)));
    OpCall { name: "LoadDict".to_owned(), params, ret: Tag::Int32 }
}

/// The `SetDict` operation: choose the active recognition dictionary.
pub fn set_dict(d_num: i32) -> (c: OpCall)
    ensures
        c.name@ == "SetDict"@,
        c.ret == Tag::Int32,
        c.params@.len() == 1,
        c.params@[0]@ == ParamModel::In(ValueModel::Int32(d_num)),
{
    let mut params: Vec<Param> = Vec::new();
    params.push(Param::In(TypedValue::from_i32(d_num)));
    OpCall { name: "SetDict".to_owned(), params, ret: Tag::Int32 }
}

/// The `Ocr` operation: recognise text in the screen area.
pub fn ocr(x1: i32, y1: i32, x2: i32, y2: i32, target: &str, color: &str, sim_bits: u64, kind_c: i32, kind_d: i32, kind_r: i32, kind_t: i32, h_line: &str, pic_name: &str) -> (c: OpCall)
    ensures
        c.name@ == "Ocr"@,
        c.ret == Tag::Text,
        c.params@.len() == 13,
        c.params@[0]@ == ParamModel::In(ValueModel::Int32(x1)),
        c.params@[1]@ == ParamModel::In(ValueModel::Int32(y1)),
        c.params@[2]@ == ParamModel::In(ValueModel::Int32(x2)),
        c.params@[3]@ == ParamModel::In(ValueModel::Int32(y2)),
        c.params@[4]@ == ParamModel::In(text_value(target@)),
        c.params@[5]@ == ParamModel::In(text_value(color@)),
        c.params@[6]@ == ParamModel::In(ValueModel::Float64Bits(sim_bits)),
        c.params@[7]@ == ParamModel::In(ValueModel::Int32(kind_c)),
        c.params@[8]@ == ParamModel::In(ValueModel::Int32(kind_d)),
        c.params@[9]@ == ParamModel::In(ValueModel::Int32(kind_r)),
        c.params@[10]@ == ParamModel::In(ValueModel::Int32(kind_t)),
        c.params@[11]@ == ParamModel::In(text_value(h_line@)),
        c.params@[12]@ == ParamModel::In(text_value(pic_name@)),
{
    let mut params: Vec<Param> = Vec::new();
    params.push(Param::In(TypedValue::from_i32(x1)));
    params.push(Param::In(TypedValue::from_i32(y1)));
    params.push(Param::In(TypedValue::from_i32(x2)));
    params.push(Param::In(TypedValue::from_i32(y2)));
    params.push(Param::In(TypedValue::from_text(target)));
    params.push(Param::In(TypedValue::from_text(color)));
    params.push(Param::In(TypedValue::from_f64_bits(sim_bits)));
    params.push(Param::In(TypedValue::from_i32(kind_c)));
    params.push(Param::In(TypedValue::from_i32(kind_d)));
    params.push(Param::In(TypedValue::from_i32(kind_r)));
    params.push(Param::In(TypedValue::from_i32(kind_t)));
    params.push(Param::In(TypedValue::from_text(h_line)));
    params.push(Param::In(TypedValue::from_text(pic_name)));
    OpCall { name: "Ocr".to_owned(), params, ret: Tag::Text }
}

} // verus!
