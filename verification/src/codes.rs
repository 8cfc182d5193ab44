//! Numeric codes that identify window messages, power-broadcast subtypes and
//! power-setting categories.
//!
//! The executable readers take each value from the `windows` crate. Their
//! contracts restate the value that the crate's source gives; Verus accepts
//! these contracts without proof.

use vstd::prelude::*;

verus! {

/// Window message sent while a window is being created.
pub open spec fn create_code() -> u32 {
    1
}

/// Window message sent while a window is being destroyed.
pub open spec fn destroy_code() -> u32 {
    2
}

/// Window message that asks a window to close.
pub open spec fn close_code() -> u32 {
    16
}

/// Window message that carries a power-management broadcast.
pub open spec fn power_broadcast_code() -> u32 {
    536
}

/// Broadcast subtype: permission to suspend is requested.
pub open spec fn query_suspend_code() -> u32 {
    0
}

/// Broadcast subtype: a suspend request was denied.
pub open spec fn query_suspend_failed_code() -> u32 {
    2
}

/// Broadcast subtype: the computer is about to suspend.
pub open spec fn suspend_code() -> u32 {
    4
}

/// Broadcast subtype: operation resumes after a critical suspension.
pub open spec fn resume_critical_code() -> u32 {
    6
}

/// Broadcast subtype: operation resumes after a suspension.
pub open spec fn resume_suspend_code() -> u32 {
    7
}

/// Broadcast subtype: battery power is low.
pub open spec fn battery_low_code() -> u32 {
    9
}

/// Broadcast subtype: the power status changed.
pub open spec fn power_status_change_code() -> u32 {
    10
}

/// Broadcast subtype: an event defined by the machine's vendor.
pub open spec fn oem_event_code() -> u32 {
    11
}

/// Broadcast subtype: operation resumes automatically to handle an event.
pub open spec fn resume_automatic_code() -> u32 {
    18
}

/// Broadcast subtype: a power setting changed.
pub open spec fn power_setting_change_code() -> u32 {
    32787
}

/// Power-setting category of the display state, as a 128-bit number.
pub open spec fn console_display_state_id() -> u128 {
    0x6fe69556_704a_47a0_8f24_c28d936fda47
}

/// Power-setting category of the active power scheme's personality, as a
/// 128-bit number.
pub open spec fn power_scheme_personality_id() -> u128 {
    0x245d8541_3943_4422_b025_13a784f679b7
}

/// Reads `windows::Win32::UI::WindowsAndMessaging::WM_CREATE`, which the
/// crate defines as the `u32` constant 1.
#[verifier::external_body]
pub(crate) fn wm_create() -> (code: u32)
    ensures
        code == create_code(),
{
    windows::Win32::UI::WindowsAndMessaging::WM_CREATE
}

/// Reads `windows::Win32::UI::WindowsAndMessaging::WM_DESTROY`, which the
/// crate defines as the `u32` constant 2.
#[verifier::external_body]
pub(crate) fn wm_destroy() -> (code: u32)
    ensures
        code == destroy_code(),
{
    windows::Win32::UI::WindowsAndMessaging::WM_DESTROY
}

/// Reads `windows::Win32::UI::WindowsAndMessaging::WM_CLOSE`, which the
/// crate defines as the `u32` constant 16.
#[verifier::external_body]
pub(crate) fn wm_close() -> (code: u32)
    ensures
        code == close_code(),
{
    windows::Win32::UI::WindowsAndMessaging::WM_CLOSE
}

/// Reads `windows::Win32::UI::WindowsAndMessaging::WM_POWERBROADCAST`, which
/// the crate defines as the `u32` constant 536.
#[verifier::external_body]
pub(crate) fn wm_power_broadcast() -> (code: u32)
    ensures
        code == power_broadcast_code(),
{
    windows::Win32::UI::WindowsAndMessaging::WM_POWERBROADCAST
}

/// Reads `windows::Win32::UI::WindowsAndMessaging::PBT_APMQUERYSUSPEND`,
/// which the crate defines as the `u32` constant 0.
#[verifier::external_body]
pub(crate) fn pbt_query_suspend() -> (code: u32)
    ensures
        code == query_suspend_code(),
{
    windows::Win32::UI::WindowsAndMessaging::PBT_APMQUERYSUSPEND
}

/// Reads `windows::Win32::UI::WindowsAndMessaging::PBT_APMQUERYSUSPENDFAILED`,
/// which the crate defines as the `u32` constant 2.
#[verifier::external_body]
pub(crate) fn pbt_query_suspend_failed() -> (code: u32)
    ensures
        code == query_suspend_failed_code(),
{
    windows::Win32::UI::WindowsAndMessaging::PBT_APMQUERYSUSPENDFAILED
}

/// Reads `windows::Win32::UI::WindowsAndMessaging::PBT_APMSUSPEND`, which
/// the crate defines as the `u32` constant 4.
#[verifier::external_body]
pub(crate) fn pbt_suspend() -> (code: u32)
    ensures
        code == suspend_code(),
{
    windows::Win32::UI::WindowsAndMessaging::PBT_APMSUSPEND
}

/// Reads `windows::Win32::UI::WindowsAndMessaging::PBT_APMRESUMECRITICAL`,
/// which the crate defines as the `u32` constant 6.
#[verifier::external_body]
pub(crate) fn pbt_resume_critical() -> (code: u32)
    ensures
        code == resume_critical_code(),
{
    windows::Win32::UI::WindowsAndMessaging::PBT_APMRESUMECRITICAL
}

/// Reads `windows::Win32::UI::WindowsAndMessaging::PBT_APMRESUMESUSPEND`,
/// which the crate defines as the `u32` constant 7.
#[verifier::external_body]
pub(crate) fn pbt_resume_suspend() -> (code: u32)
    ensures
        code == resume_suspend_code(),
{
    windows::Win32::UI::WindowsAndMessaging::PBT_APMRESUMESUSPEND
}

/// Reads `windows::Win32::UI::WindowsAndMessaging::PBT_APMBATTERYLOW`, which
/// the crate defines as the `u32` constant 9.
#[verifier::external_body]
pub(crate) fn pbt_battery_low() -> (code: u32)
    ensures
        code == battery_low_code(),
{
    windows::Win32::UI::WindowsAndMessaging::PBT_APMBATTERYLOW
}

/// Reads `windows::Win32::UI::WindowsAndMessaging::PBT_APMPOWERSTATUSCHANGE`,
/// which the crate defines as the `u32` constant 10.
#[verifier::external_body]
pub(crate) fn pbt_power_status_change() -> (code: u32)
    ensures
        code == power_status_change_code(),
{
    windows::Win32::UI::WindowsAndMessaging::PBT_APMPOWERSTATUSCHANGE
}

/// Reads `windows::Win32::UI::WindowsAndMessaging::PBT_APMOEMEVENT`, which
/// the crate defines as the `u32` constant 11.
#[verifier::external_body]
pub(crate) fn pbt_oem_event() -> (code: u32)
    ensures
        code == oem_event_code(),
{
    windows::Win32::UI::WindowsAndMessaging::PBT_APMOEMEVENT
}

/// Reads `windows::Win32::UI::WindowsAndMessaging::PBT_APMRESUMEAUTOMATIC`,
/// which the crate defines as the `u32` constant 18.
#[verifier::external_body]
pub(crate) fn pbt_resume_automatic() -> (code: u32)
    ensures
        code == resume_automatic_code(),
{
    windows::Win32::UI::WindowsAndMessaging::PBT_APMRESUMEAUTOMATIC
}

/// Reads `windows::Win32::UI::WindowsAndMessaging::PBT_POWERSETTINGCHANGE`,
/// which the crate defines as the `u32` constant 32787.
#[verifier::external_body]
pub(crate) fn pbt_power_setting_change() -> (code: u32)
    ensures
        code == power_setting_change_code(),
{
    windows::Win32::UI::WindowsAndMessaging::PBT_POWERSETTINGCHANGE
}

/// Calls `windows::core::GUID::to_u128` on
/// `windows::Win32::System::SystemServices::GUID_CONSOLE_DISPLAY_STATE`. The
/// crate builds that constant with `GUID::from_u128` from the number named
/// here, and `to_u128` puts the four fields back together in the same order.
#[verifier::external_body]
pub(crate) fn guid_console_display_state() -> (id: u128)
    ensures
        id == console_display_state_id(),
{
    windows::Win32::System::SystemServices::GUID_CONSOLE_DISPLAY_STATE.to_u128()
}

/// Calls `windows::core::GUID::to_u128` on
/// `windows::Win32::System::SystemServices::GUID_POWERSCHEME_PERSONALITY`. The
/// crate builds that constant with `GUID::from_u128` from the number named
/// here, and `to_u128` puts the four fields back together in the same order.
#[verifier::external_body]
pub(crate) fn guid_power_scheme_personality() -> (id: u128)
    ensures
        id == power_scheme_personality_id(),
{
    windows::Win32::System::SystemServices::GUID_POWERSCHEME_PERSONALITY.to_u128()
}

} // verus!
