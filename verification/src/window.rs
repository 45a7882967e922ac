//! The windows of the application: their labels, entry pages, titles and sizes.

use crate::text::{push_signed_decimal, signed_decimal};
use vstd::prelude::*;
use vstd::string::StringExecFns;

verus! {

/// What the application has to know of a window to build it.
pub trait WindowInfoProvider {
    /// The label by which the window is found again.
    fn label(&self) -> String;

    /// The page that the window shows.
    fn entry(&self) -> String;

    /// The title of the window.
    fn title(&self) -> String;

    /// Width and height of the window, in logical pixels.
    fn size(&self) -> (u32, u32);

    /// Whether the user may resize the window.
    fn resizable(&self) -> bool;

    /// The scripts that run in the window before its page does.
    fn init_scripts(&self) -> Vec<String>;
}

/// The window in which an account is added.
#[derive(Debug, Clone, Copy, PartialEq, Eq, Hash, Structural)]
pub struct AccountAddWindow;

impl WindowInfoProvider for AccountAddWindow {
    fn label(&self) -> (label: String)
        ensures
            label@ == "account-add"@,
    {
        String::from_str("account-add")
    }

    fn entry(&self) -> (entry: String)
        ensures
            entry@ == "account-add"@,
    {
        String::from_str("account-add")
    }

    fn title(&self) -> (title: String)
        ensures
            title@ == "Add Account - DLsite Manager"@,
    {
        String::from_str("Add Account - DLsite Manager")
    }

    fn size(&self) -> (size: (u32, u32))
        ensures
            size == (320u32, 450u32),
    {
        (320, 450)
    }

    fn resizable(&self) -> (resizable: bool)
        ensures
            resizable == false,
    {
        false
    }

    fn init_scripts(&self) -> (scripts: Vec<String>)
        ensures
            scripts@.len() == 0,
    {
        Vec::new()
    }
}

/// The window in which the account `account_id` is edited.
#[derive(Debug, Clone, Copy, PartialEq, Eq, Hash, Structural)]
pub struct AccountEditWindow {
    pub account_id: i64,
}

impl WindowInfoProvider for AccountEditWindow {
    fn label(&self) -> (label: String)
        ensures
            label@ == "account-edit"@,
    {
        String::from_str("account-edit")
    }

    fn entry(&self) -> (entry: String)
        ensures
            entry@ == "account-edit"@,
    {
        String::from_str("account-edit")
    }

    fn title(&self) -> (title: String)
        ensures
            title@ == "Edit Account - DLsite Manager"@,
    {
        String::from_str("Edit Account - DLsite Manager")
    }

    fn size(&self) -> (size: (u32, u32))
        ensures
            size == (320u32, 450u32),
    {
        (320, 450)
    }

    fn resizable(&self) -> (resizable: bool)
        ensures
            resizable == false,
    {
        false
    }

    fn init_scripts(&self) -> (scripts: Vec<String>)
        ensures
            scripts@.len() == 1,
            scripts@[0]@ == "window.accountId = "@ + signed_decimal(self.account_id as int),
    {
        let mut script = String::from_str("window.accountId = ");
        push_signed_decimal(&mut script, self.account_id);
        let mut scripts: Vec<String> = Vec::new();
        scripts.push(script);
        scripts
    }
}

/// The window that lists the accounts.
#[derive(Debug, Clone, Copy, PartialEq, Eq, Hash, Structural)]
pub struct AccountManagementWindow;

impl WindowInfoProvider for AccountManagementWindow {
    fn label(&self) -> (label: String)
        ensures
            label@ == "account-management"@,
    {
        String::from_str("account-management")
    }

    fn entry(&self) -> (entry: String)
        ensures
            entry@ == "account-management"@,
    {
        String::from_str("account-management")
    }

    fn title(&self) -> (title: String)
        ensures
            title@ == "Account Management - DLsite Manager"@,
    {
        String::from_str("Account Management - DLsite Manager")
    }

    fn size(&self) -> (size: (u32, u32))
        ensures
            size == (600u32, 500u32),
    {
        (600, 500)
    }

    fn resizable(&self) -> (resizable: bool)
        ensures
            resizable == true,
    {
        true
    }

    fn init_scripts(&self) -> (scripts: Vec<String>)
        ensures
            scripts@.len() == 0,
    {
        Vec::new()
    }
}

/// The window that shows the catalog.
#[derive(Debug, Clone, Copy, PartialEq, Eq, Hash, Structural)]
pub struct MainWindow;

impl WindowInfoProvider for MainWindow {
    fn label(&self) -> (label: String)
        ensures
            label@ == "main"@,
    {
        String::from_str("main")
    }

    fn entry(&self) -> (entry: String)
        ensures
            entry@ == "main"@,
    {
        String::from_str("main")
    }

    fn title(&self) -> (title: String)
        ensures
            title@ == "DLsite Manager"@,
    {
        String::from_str("DLsite Manager")
    }

    fn size(&self) -> (size: (u32, u32))
        ensures
            size == (800u32, 600u32),
    {
        (800, 600)
    }

    fn resizable(&self) -> (resizable: bool)
        ensures
            resizable == true,
    {
        true
    }

    fn init_scripts(&self) -> (scripts: Vec<String>)
        ensures
            scripts@.len() == 0,
    {
        Vec::new()
    }
}

/// The window of the settings.
#[derive(Debug, Clone, Copy, PartialEq, Eq, Hash, Structural)]
pub struct SettingWindow;

impl WindowInfoProvider for SettingWindow {
    fn label(&self) -> (label: String)
        ensures
            label@ == "setting"@,
    {
        String::from_str("setting")
    }

    fn entry(&self) -> (entry: String)
        ensures
            entry@ == "setting"@,
    {
        String::from_str("setting")
    }

    fn title(&self) -> (title: String)
        ensures
            title@ == "Settings - DLsite Manager"@,
    {
        String::from_str("Settings - DLsite Manager")
    }

    fn size(&self) -> (size: (u32, u32))
        ensures
            size == (600u32, 300u32),
    {
        (600, 300)
    }

    fn resizable(&self) -> (resizable: bool)
        ensures
            resizable == false,
    {
        false
    }

    fn init_scripts(&self) -> (scripts: Vec<String>)
        ensures
            scripts@.len() == 0,
    {
        Vec::new()
    }
}

} // verus!
