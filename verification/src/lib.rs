//! Static pages for the Brainmade site, assembled from markup nodes.
//!
//! A page is a tree of [`markup::Markup`] nodes. Rendering a node appends its
//! declared text to a buffer, children first to last, and never escapes
//! anything. The section builders in [`sections`] name the regions of a page,
//! [`shell::template`] wraps any content in the document frame shared by every
//! page, [`pages`] assembles the two pages of the site, and [`driver`] decides
//! what is written where and when a run stops.

pub mod driver;
pub mod markdown;
pub mod markup;
pub mod pages;
pub mod sections;
pub mod shell;
