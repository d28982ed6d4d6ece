//! The bar above the panes: who is logged in and how full the disk is.
use vstd::prelude::*;
use crate::models::disk_meta::{DiskMeta, space_text};
use crate::utils::text::push_str;

verus! {

/// The top bar's content.
#[derive(Debug)]
pub struct TopBar {
    pub disk_meta: DiskMeta,
}

impl TopBar {
    /// `Hello, <user>`.
    pub fn greeting(&self) -> (r: String)
        ensures
            r@ == "Hello, "@ + self.disk_meta.username_text(),
    {
        let mut out = String::from_str("Hello, ");
        push_str(&mut out, self.disk_meta.user_name());
        out
    }

    /// `Total space <n> GB`.
    pub fn total_space_label(&self) -> (r: String)
        ensures
            r@ == "Total space "@ + space_text(self.disk_meta.total_space_value() as nat),
    {
        let mut out = String::from_str("Total space ");
        let v = self.disk_meta.total_space_verbose();
        push_str(&mut out, v.as_str());
        out
    }

    /// `Used space <n> GB`.
    pub fn used_space_label(&self) -> (r: String)
        ensures
            r@ == "Used space "@ + space_text(self.disk_meta.used_space_value() as nat),
    {
        let mut out = String::from_str("Used space ");
        let v = self.disk_meta.used_space_verbose();
        push_str(&mut out, v.as_str());
        out
    }
}

}
