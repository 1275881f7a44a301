//! Reconciliation and upload engine for household census sheets.
//!
//! Rows of a survey sheet are classified into owner and resident records,
//! grouped into households, encoded for transport and replicated into a
//! remote record service by a per-household state machine that a batch
//! orchestrator drives.  The library decides and computes; the program
//! around it reads the sheet, talks to the service and asks the operator.
//!
//! From a sheet to the service:
//!
//! - [`row`] holds the column layout and the cell type;
//! - [`rules`] derives field values from cells;
//! - [`household_info`] holds the four records, built from a row and
//!   encoded field by field with [`wire`];
//! - [`location`] splits the operator's location text into codes;
//! - [`household`] classifies rows and [`grouping`] groups them;
//! - [`request`] builds the forms to post and [`reply`] reads the answers;
//! - [`sync`] is the state machine of one household and [`batch`] the
//!   orchestrator of all of them;
//! - [`http_client`] lists the headers of the session;
//! - [`text`] holds the text primitives that the others share.

pub mod batch;
pub mod grouping;
pub mod household;
pub mod household_info;
pub mod http_client;
pub mod location;
pub mod reply;
pub mod request;
pub mod row;
pub mod rules;
pub mod sync;
pub mod text;
pub mod wire;
