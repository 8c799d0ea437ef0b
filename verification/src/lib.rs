//! Today's hourly electricity spot prices for the bidding zone NO2, served
//! to a page that draws them.
//!
//! This library holds every decision of the service and touches neither the
//! network, the disk nor the clock:
//!
//! - [`upstream`]: the address of a day's price list, the judgement of the
//!   upstream answer, and the errors of fetching;
//! - [`prices`]: the chart points of the upstream records, and the answer of
//!   the prices endpoint;
//! - [`prices_request`]: a request for the prices, step by step;
//! - [`font`]: which file names are fonts, and when one path lies in another;
//! - [`font_request`]: a request for a font file, step by step;
//! - [`text`]: searching character sequences and writing numbers.
//!
//! The two request machines are driven by a caller that does the outside
//! work: it performs the action that a step asks for and reports the
//! outcome as the next event.

pub mod font;
pub mod font_request;
pub mod prices;
pub mod prices_request;
pub mod text;
pub mod upstream;
