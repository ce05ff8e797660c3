//! A verified interaction core for browsing a container registry's tags and
//! splicing a chosen `image:tag` reference into a service-definition file:
//! a three-state input dispatcher, the repository-name validator, the
//! paginated tag listing, and the relative-age formatter.

pub mod info;
pub mod repo_entry;
pub mod service_switcher;
pub mod strings;
pub mod tag_list;
pub mod tags;
pub mod ui;
