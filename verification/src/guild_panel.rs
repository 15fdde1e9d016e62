//! The rail of servers at the far left: what it shows and what it asks for.
use vstd::prelude::*;

use crate::avatar;
use crate::net::Server;
use crate::text;

verus! {

/// What the rail's controls ask for.
#[derive(Debug, Clone, Copy, PartialEq, Eq, Structural)]
pub enum GuildPanelAction {
    SelectDms,
    SelectServer(i64),
    AddServer,
    Explore,
    DeleteServer(i64),
    RetryServers,
}

/// What the rail is drawn from.
#[derive(Debug)]
pub struct GuildPanelParams {
    pub servers: Vec<Server>,
    pub selected_server: Option<i64>,
    pub servers_loading: bool,
    pub servers_error: Option<String>,
}

/// A server on the rail.
#[derive(Debug, Clone, PartialEq, Eq)]
pub struct GuildRow {
    pub server_id: i64,
    pub glyph: String,
    pub tooltip: String,
    pub active: bool,
    /// The name under which the drawing keeps the row.
    pub row_id: String,
}

/// The row of a server.
pub open spec fn is_row_of(row: GuildRow, s: Server, selected: Option<i64>) -> bool {
    &&& row.server_id == s.id
    &&& row.glyph@ == avatar::glyph_of(s.name@)
    &&& row.tooltip@ == s.name@
    &&& row.active == (selected == Some(s.id))
    &&& row.row_id@ == "guild_srv_"@ + text::decimal_int(s.id as int)
}

/// What the rail shows.
#[derive(Debug)]
pub struct GuildView {
    /// Whether the entry above the servers is the one in use.
    pub home_active: bool,
    pub spinner: bool,
    /// An error, with a control to try again.
    pub retry: Option<String>,
    pub rows: Vec<GuildRow>,
}

/// What the rail shows. That servers are being loaded, or could not be, is shown
/// only while there are none.
pub fn guild_view(params: &GuildPanelParams) -> (r: GuildView)
    ensures
        r.home_active == (params.selected_server is None),
        r.spinner == (params.servers_loading && params.servers@.len() == 0),
        r.retry == if params.servers@.len() == 0 {
            params.servers_error
        } else {
            None
        },
        r.rows@.len() == params.servers@.len(),
        forall|i: int|
            0 <= i < r.rows@.len() ==> is_row_of(
                #[trigger] r.rows@[i],
                params.servers@[i],
                params.selected_server,
            ),
{
    let mut rows: Vec<GuildRow> = Vec::new();
    let mut i: usize = 0;
    while i < params.servers.len()
        invariant
            i <= params.servers@.len(),
            rows@.len() == i,
            forall|k: int|
                0 <= k < i ==> is_row_of(
                    #[trigger] rows@[k],
                    params.servers@[k],
                    params.selected_server,
                ),
        decreases params.servers@.len() - i,
    {
        let s = &params.servers[i];
        let mut row_id = "guild_srv_".to_owned();
        text::push_decimal_int(&mut row_id, s.id);
        rows.push(
            GuildRow {
                server_id: s.id,
                glyph: avatar::server_glyph(s.name.as_str()),
                tooltip: s.name.clone(),
                active: params.selected_server == Some(s.id),
                row_id,
            },
        );
        i += 1;
    }
    let retry: Option<String> = if params.servers.len() == 0 {
        match &params.servers_error {
            Some(e) => Some(e.clone()),
            None => None,
        }
    } else {
        None
    };
    GuildView {
        home_active: params.selected_server.is_none(),
        spinner: params.servers_loading && params.servers.len() == 0,
        retry,
        rows,
    }
}

} // verus!
