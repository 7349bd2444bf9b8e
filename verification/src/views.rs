//! The internal HTML pages. Each page is its fixed template with the given
//! values put in; texts marked as escaped go through `html_escape`.

use vstd::prelude::*;
use crate::codec::{escape_attr, html_escape};
use crate::governance::{Proposal, ProposalView};
use crate::network::{ConnectionProfile, Protocol, TorBridge, V2RayConfig};
use crate::query::{chars_eq, contains_text_chars};
use crate::search::{is_onion_url, results_view, NetworkType, ResultBadge, ResultView, SearchResult};
use crate::text::{chars_of, decimal, push_decimal, push_str};

verus! {

pub const WELCOME_0: &'static str = r##"
    <html>
        <body>
            <section>
                <h1>SENTINEL</h1>
                <p>Privacy-native browser · Tor + clearnet · Google-free Horus search</p>
                <p>Theme: "##;

pub const WELCOME_1: &'static str = r##" | Search: "##;

pub const WELCOME_2: &'static str = r##"</p>
                <p>Type a query in the URL bar to search clearnet + .onion (onion hits are marked). Paste any https:// or .onion address to browse.</p>
            </section>
            <div class="row">
                <row>
                    <column>
                        <h3>PRIMARY</h3>
                        <ul>
                            <li><a href="sentinel://search?q=privacy">Search: privacy</a></li>
                            <li><a href="sentinel://search?q=mail">Search: mail (onion + clearnet)</a></li>
                            <li><a href="sentinel://settings">Settings</a></li>
                            <li><a href="sentinel://connect">Connect / Tor</a></li>
                            <li><a href="sentinel://bookmarks">Bookmarks</a></li>
                            <li><a href="sentinel://history">History</a></li>
                            <li><a href="sentinel://status">Network Status</a></li>
                            <li><a href="sentinel://downloads">Downloads</a></li>
                            <li><a href="sentinel://security">Security</a></li>
                            <li><a href="sentinel://governance">Governance (local demo)</a></li>
                        </ul>
                    </column>
                    <column>
                        <h3>SHIELDS</h3>
                        <ul>
                            <li>Ads &amp; trackers blocked by default</li>
                            <li>No Google DNS / SafeSearch</li>
                            <li>DoH via Quad9 or DNS-over-Tor</li>
                            <li>ISP parental filters do not apply inside Tor</li>
                        </ul>
                    </column>
                    <column>
                        <h3>SYSTEM</h3>
                        <p>Engine: WebView2 · Network: Vortex · Search: Horus</p>
                        <p>License: AGPL-3.0</p>
                    </column>
                </row>
            </div>
        </body>
    </html>
    "##;

pub const CONNECT_ITEM_0: &'static str = r##"<li>"##;

pub const CONNECT_ITEM_1: &'static str = r##" - "##;

pub const CONNECT_ITEM_2: &'static str = r##" <a href="sentinel://connect_switch?name="##;

pub const CONNECT_ITEM_3: &'static str = r##"">SWITCH</a></li>"##;

pub const CONNECT_0: &'static str = r##"
    <html>
        <body>
            <section>
                <h1>CONNECT</h1>
                <p>Status: "##;

pub const CONNECT_1: &'static str = r##"</p>
                <p>Pluggable transports: "##;

pub const CONNECT_2: &'static str = r##"</p>
            </section>
            <div class="row">
                <row>
                    <column>
                        <h3>PROTOCOL</h3>
                        <p><a href="sentinel://network?type=tor">Tor</a></p>
                        <p><a href="sentinel://network?type=clear">Clearweb (Direct)</a></p>
                        <p><a href="sentinel://network?type=snowflake">Tor + Snowflake</a> (requires snowflake-client on PATH)</p>
                        <p><a href="sentinel://status">Network status</a></p>
                        <p style="opacity:.7">I2P, WireGuard, and V2Ray are not exposed until they proxy WebView traffic for real.</p>
                    </column>
                    <column>
                        <h3>BRIDGES</h3>
                        <p><a href="sentinel://network_menu">Configure bridges</a></p>
                        <p>obfs4 / Snowflake need PT binaries. Install helpers from the Tor Expert Bundle (on-demand):</p>
                        <p><a href="sentinel://install_pt">Install PT helpers</a></p>
                        <p>Without them, Tor uses direct bootstrap only.</p>
                    </column>
                    <column>
                        <h3>PROFILES</h3>
                        <ul>"##;

pub const CONNECT_3: &'static str = r##"</ul>
                        <p><a href="sentinel://connect_save_profile?name=Default">Save current as Default</a></p>
                        <p><a href="sentinel://connect_test">Test connection</a></p>
                        <p><a href="sentinel://home">Back</a></p>
                    </column>
                </row>
            </div>
        </body>
    </html>
    "##;

pub const PT_INSTALL_0: &'static str = r##"
    <html>
        <body>
            <section>
                <h1>"##;

pub const PT_INSTALL_1: &'static str = r##"</h1>
                <p>"##;

pub const PT_INSTALL_2: &'static str = r##"</p>
                <p>Helpers are stored under your app data <code>sentinel/pt</code> folder (not bundled in the browser zip).</p>
                <p><a href="sentinel://connect">Back to Connect</a> · <a href="sentinel://home">Home</a></p>
            </section>
        </body>
    </html>
    "##;

pub const SETTINGS_0: &'static str = r##"
    <html>
        <body>
            <section>
                <h1>SETTINGS</h1>
                <p>Configure Sentinel Browser</p>
            </section>
            <div class="row">
                <row>
                    <column>
                        <h3>GENERAL</h3>
                        <p>Theme: "##;

pub const SETTINGS_1: &'static str = r##"</p>
                        <p>Search: "##;

pub const SETTINGS_2: &'static str = r##"</p>
                        <p>Homepage: Dashboard</p>
                    </column>
                    <column>
                        <h3>PRIVACY</h3>
                        <p>History: "##;

pub const SETTINGS_3: &'static str = r##"</p>
                        <p>Search: Horus (local + Ahmia) — never Google</p>
                        <p>Optional SearXNG: set SENTINEL_SEARX_URL</p>
                        <p>DNS: Quad9 DoH / DNS-over-Tor (no SafeSearch)</p>
                        <p>Allowlist ads on a host: <code>sentinel://allow_site?host=example.com</code></p>
                        <button onclick="sentinel://toggle_history">"##;

pub const SETTINGS_4: &'static str = r##" HISTORY</button>
                        <button onclick="sentinel://welcome">BACK</button>
                    </column>
                    <column>
                        <h3>SECURITY</h3>
                        <p>Sandbox: "##;

pub const SETTINGS_5: &'static str = r##"</p>
                        <p>Shields: ads/trackers blocked (EasyList subset)</p>
                        <p>Engine: WebView2 (JS enabled; not Tor Browser fingerprint parity)</p>
                        <button onclick="sentinel://toggle_security">TOGGLE LEVEL</button>
                    </column>
                </row>
            </div>
        </body>
    </html>
    "##;

pub const DAPPS: &'static str = r##"
    <html>
        <body>
            <section>
                <h1>LINKS</h1>
                <p>Public site bookmarks only — Sentinel does not ship a wallet or Web3 injector.</p>
            </section>
            <div class="row">
                <row>
                    <column>
                        <h3>DEFI (EXTERNAL)</h3>
                        <p><a href="https://app.uniswap.org">Uniswap</a></p>
                        <p><a href="https://app.aave.com">Aave</a></p>
                    </column>
                    <column>
                        <h3>IDENTITY</h3>
                        <p><a href="https://app.ens.domains">ENS</a></p>
                        <p><a href="https://ipfs.tech">IPFS</a></p>
                        <p><a href="sentinel://home">Back</a></p>
                    </column>
                </row>
            </div>
        </body>
    </html>
    "##;

pub const DESIGN_SYSTEM: &'static str = r##"
    <html>
        <body>
            <section>
                <h1>DESIGN SYSTEM</h1>
                <p>Typography, colors, spacing, components</p>
            </section>
            <div class="row">
                <row>
                    <column>
                        <h3>TYPOGRAPHY</h3>
                        <p>Heading H1</p>
                        <p>Heading H2</p>
                        <p>Body Text</p>
                    </column>
                    <column>
                        <h3>COLORS</h3>
                        <ul>
                            <li>Background: #1A1A1A</li>
                            <li>Card: #1B1D1F</li>
                            <li>Accent: #00D9F2</li>
                            <li>Text: #FFFFFF</li>
                        </ul>
                    </column>
                    <column>
                        <h3>COMPONENTS</h3>
                        <button onclick="sentinel://welcome">Primary Button</button>
                        <button onclick="sentinel://settings">Secondary Button</button>
                    </column>
                </row>
            </div>
        </body>
    </html>
    "##;

pub const PROTOTYPES: &'static str = r##"
    <html>
        <body>
            <section>
                <h1>PROTOTYPES</h1>
                <p>Interactive components showcasing navigation, search, and settings.</p>
            </section>
            <div class="row">
                <row>
                    <column>
                        <h3>NAVIGATION</h3>
                        <ul>
                            <li><a href="sentinel://search?q=usability">Search Flow</a></li>
                            <li><a href="sentinel://settings">Settings Flow</a></li>
                            <li><a href="sentinel://connect">Connect Flow</a></li>
                        </ul>
                    </column>
                    <column>
                        <h3>FORMS</h3>
                        <button onclick="sentinel://add_bookmark?url=https://sentinel.dao&title=Sentinel">Add Bookmark</button>
                        <button onclick="sentinel://toggle_history">Toggle History</button>
                    </column>
                    <column>
                        <h3>METRICS</h3>
                        <p>3-click rule: All primary features reachable within 2 clicks from dashboard.</p>
                    </column>
                </row>
            </div>
        </body>
    </html>
    "##;

pub const NETWORK_MENU_0: &'static str = r##"
    <html>
        <body>
            <section>
                <h1>NETWORK MENU</h1>
                <p>Tor, bridges, and Direct only. PT status: "##;

pub const NETWORK_MENU_1: &'static str = r##"</p>
            </section>
            <div class="row">
                <row>
                    <column>
                        <h3>BRIDGES</h3>
                        <p><a href="sentinel://add_bridge_obfs4?addr=&amp;cert=&amp;iat_mode=0">Add Obfs4 (fill addr/cert in URL)</a></p>
                        <p><a href="sentinel://add_bridge_snowflake?broker=https://snowflake-broker.torproject.net/&amp;relay=snowflake.torproject.net">Add Snowflake</a></p>
                        <p><a href="sentinel://network?type=tor">Use Tor</a></p>
                        <p><a href="sentinel://network?type=snowflake">Use Tor + Snowflake</a></p>
                    </column>
                    <column>
                        <h3>DIRECT</h3>
                        <p><a href="sentinel://network?type=clear">Clearweb (no proxy)</a></p>
                        <p>V2Ray appears here only when V2RAY_PATH points to a binary and a real outbound SOCKS inbound is configured.</p>
                    </column>
                    <column>
                        <h3>CONNECTIONS</h3>
                        <p><a href="sentinel://connect">Connect</a></p>
                        <p><a href="sentinel://status">Status</a></p>
                        <p><a href="sentinel://home">Close</a></p>
                    </column>
                </row>
            </div>
        </body>
    </html>
    "##;

pub const SECURITY_0: &'static str = r##"
    <html>
        <body>
            <section>
                <h1>SECURITY AUDIT</h1>
                <p>Real-time system protection status.</p>
            </section>
            <div class="row">
                <row>
                    <column>
                        <h3>SANDBOX</h3>
                        <p>Level: "##;

pub const SECURITY_1: &'static str = r##"</p>
                        <p>Process Isolation: Active</p>
                        <p>Zygote: Locked</p>
                        <button onclick="sentinel://toggle_security">CHANGE LEVEL</button>
                    </column>
                    <column>
                        <h3>NETWORK PRIVACY</h3>
                        <p>DNS Leak Protection: "##;

pub const SECURITY_2: &'static str = r##"</p>
                        <p>WebRTC Exposure: "##;

pub const SECURITY_3: &'static str = r##"</p>
                        <p>Fingerprint Masking: "##;

pub const SECURITY_4: &'static str = r##"</p>
                        <button onclick="sentinel://status">NET STATUS</button>
                    </column>
                    <column>
                        <h3>SYSTEM</h3>
                        <p>PQC Handshake: ML-KEM-1024</p>
                        <p>Vault Nonce: Secure</p>
                        <button onclick="sentinel://welcome">HOME</button>
                    </column>
                </row>
            </div>
        </body>
    </html>
    "##;

pub const DOWNLOAD_ITEM_0: &'static str = r##"
            <li>
                <b>"##;

pub const DOWNLOAD_ITEM_1: &'static str = r##"</b>
                <p>Source: "##;

pub const DOWNLOAD_ITEM_2: &'static str = r##"</p>
                <p><i>Status: "##;

pub const DOWNLOAD_ITEM_3: &'static str = r##" | Date: "##;

pub const DOWNLOAD_ITEM_4: &'static str = r##"</i></p>
            </li>
            "##;

pub const DOWNLOADS_0: &'static str = r##"
    <html>
        <body>
            <section>
                <h1>DOWNLOADS</h1>
                <p>Track your file transfers.</p>
            </section>
            <div class="row">
                <row>
                    <column>
                        <h3>HISTORY</h3>
                        <ul>
                            "##;

pub const DOWNLOADS_1: &'static str = r##"
                        </ul>
                        <button onclick="sentinel://welcome">HOME</button>
                    </column>
                </row>
            </div>
        </body>
    </html>
    "##;

pub const DOWNLOAD_COMPLETE_0: &'static str = r##"
    <html>
        <body>
            <section>
                <h1>DOWNLOAD SAVED</h1>
                <p>Written under Downloads/SentinelDownloads (or home/SentinelDownloads).</p>
            </section>
            <div class="row">
                <row>
                    <column>
                        <h3>DETAILS</h3>
                        <p>File: "##;

pub const DOWNLOAD_COMPLETE_1: &'static str = r##"</p>
                        <p><a href="sentinel://downloads">Downloads list</a></p>
                        <p><a href="sentinel://home">Home</a></p>
                    </column>
                </row>
            </div>
        </body>
    </html>
    "##;

pub const DOWNLOAD_ERROR_0: &'static str = r##"
    <html>
        <body>
            <section>
                <h1>DOWNLOAD FAILED</h1>
                <p>"##;

pub const DOWNLOAD_ERROR_1: &'static str = r##"</p>
                <p>Use <code>sentinel://download?url=https://example.com/file</code></p>
                <p><a href="sentinel://downloads">Downloads</a> · <a href="sentinel://home">Home</a></p>
            </section>
        </body>
    </html>
    "##;

pub const BOOKMARK_ITEM_0: &'static str = r##"
            <li>
                <b>"##;

pub const BOOKMARK_ITEM_1: &'static str = r##"</b>
                <p>"##;

pub const BOOKMARK_ITEM_2: &'static str = r##"</p>
                <button onclick=""##;

pub const BOOKMARK_ITEM_3: &'static str = r##"">OPEN</button>
            </li>
            "##;

pub const BOOKMARKS_0: &'static str = r##"
    <html>
        <body>
            <section>
                <h1>BOOKMARKS</h1>
                <p>Saved Sites & Resources</p>
            </section>
            <div class="row">
                <row>
                    <column>
                        <h3>FOLDERS</h3>
                        <ul>
                            <li><b>Favorites</b></li>
                            <li>Reading List</li>
                            <li>Onion Sites</li>
                        </ul>
                    </column>
                    <column>
                        <h3>SAVED</h3>
                        <ul>
                            "##;

pub const BOOKMARKS_1: &'static str = r##"
                        </ul>
                    </column>
                </row>
            </div>
        </body>
    </html>
    "##;

pub const HISTORY_ITEM_0: &'static str = r##"
            <li>
                <b>"##;

pub const HISTORY_ITEM_1: &'static str = r##"</b>
                <p>"##;

pub const HISTORY_ITEM_2: &'static str = r##"</p>
                <p><i>"##;

pub const HISTORY_ITEM_3: &'static str = r##"</i></p>
                <button onclick=""##;

pub const HISTORY_ITEM_4: &'static str = r##"">OPEN</button>
            </li>
            "##;

pub const HISTORY_0: &'static str = r##"
    <html>
        <body>
            <section>
                <h1>HISTORY</h1>
                <p>Recent Activity Log</p>
            </section>
            <div class="row">
                <row>
                    <column>
                        <h3>ACTIONS</h3>
                        <button onclick="sentinel://clear_history">CLEAR HISTORY</button>
                        <button onclick="sentinel://welcome">HOME</button>
                    </column>
                    <column>
                        <h3>RECENT</h3>
                        <ul>
                            "##;

pub const HISTORY_1: &'static str = r##"
                        </ul>
                    </column>
                </row>
            </div>
        </body>
    </html>
    "##;

pub const ERROR_0: &'static str = r##"
    <html>
        <body>
            <section>
                <h1>"##;

pub const ERROR_1: &'static str = r##"</h1>
                <p>"##;

pub const ERROR_2: &'static str = r##"</p>
            </section>
            <button onclick="sentinel://welcome">HOME</button>
        </body>
    </html>
    "##;

pub const PROPOSAL_ITEM_0: &'static str = r##"
            <li>
                <b>#"##;

pub const PROPOSAL_ITEM_1: &'static str = r##" "##;

pub const PROPOSAL_ITEM_2: &'static str = r##"</b>
                <p>"##;

pub const PROPOSAL_ITEM_3: &'static str = r##"</p>
                <p><i>Author: "##;

pub const PROPOSAL_ITEM_4: &'static str = r##" | Deadline: "##;

pub const PROPOSAL_ITEM_5: &'static str = r##"</i></p>
                <a href="sentinel://vote?id="##;

pub const PROPOSAL_ITEM_6: &'static str = r##"&approve=true">Vote yes (demo)</a>
                · <a href="sentinel://vote?id="##;

pub const PROPOSAL_ITEM_7: &'static str = r##"&approve=false">Vote no (demo)</a>
            </li>
            "##;

pub const GOVERNANCE_0: &'static str = r##"
    <html>
        <body>
            <section>
                <h1>GOVERNANCE (EXPERIMENTAL)</h1>
                <p>Local ZK circuit demo only — not an on-chain DAO, treasury, or production voting system.</p>
            </section>
            <div class="row">
                <row>
                    <column>
                        <h3>STATUS</h3>
                        <p>Mode: in-process Groth16 demo</p>
                        <p>Active proposals: "##;

pub const GOVERNANCE_1: &'static str = r##"</p>
                        <p><a href="sentinel://home">Back</a></p>
                    </column>
                    <column>
                        <h3>DEMO PROPOSALS</h3>
                        <ul>
                            "##;

pub const GOVERNANCE_2: &'static str = r##"
                        </ul>
                    </column>
                </row>
            </div>
        </body>
    </html>
    "##;

pub const STATUS_0: &'static str = r##"
    <html>
        <body>
            <section>
                <h1>NETWORK STATUS</h1>
                <p>Live Vortex snapshot (no invented bandwidth).</p>
            </section>
            <div class="row">
                <row>
                    <column>
                        <h3>CONNECTION</h3>
                        <p>"##;

pub const STATUS_1: &'static str = r##"</p>
                        <p>Protocol: "##;

pub const STATUS_2: &'static str = r##"</p>
                        <p>Tor client: "##;

pub const STATUS_3: &'static str = r##"</p>
                        <p>SOCKS: "##;

pub const STATUS_4: &'static str = r##"</p>
                        <hr/>
                        <h4>CHOOSE PROTOCOL</h4>
                        <p><a href="sentinel://network?type=tor">Tor</a></p>
                        <p><a href="sentinel://network?type=snowflake">Tor + Snowflake</a></p>
                        <p><a href="sentinel://network?type=clear">Clearweb</a></p>
                    </column>
                    <column>
                        <h3>RUNTIME</h3>
                        <p>Active Vortex streams: "##;

pub const STATUS_5: &'static str = r##"</p>
                        <p>Process RAM: "##;

pub const STATUS_6: &'static str = r##" MB</p>
                        <p>PT: "##;

pub const STATUS_7: &'static str = r##"</p>
                        <p>WebView traffic is not counted here (engine-side).</p>
                    </column>
                    <column>
                        <h3>ROUTING</h3>
                        <p>Exit path depends on Tor/Direct mode.</p>
                        <p><a href="sentinel://connect">Connect</a></p>
                        <p><a href="sentinel://home">Back</a></p>
                    </column>
                </row>
            </div>
        </body>
    </html>
    "##;

/// The dashboard.
pub open spec fn welcome_page_spec(theme: Seq<char>, search_engine: Seq<char>) -> Seq<char> {
    WELCOME_0@ + theme + WELCOME_1@ + search_engine + WELCOME_2@
}

/// The dashboard, naming the theme and the search engine.
pub fn welcome_page(theme: &str, search_engine: &str) -> (r: String)
    ensures
        r@ == welcome_page_spec(theme@, search_engine@),
{
    let mut s = String::new();
    push_str(&mut s, WELCOME_0);
    push_str(&mut s, theme);
    push_str(&mut s, WELCOME_1);
    push_str(&mut s, search_engine);
    push_str(&mut s, WELCOME_2);
    s
}

/// The report after installing the pluggable-transport helpers.
pub open spec fn pt_install_page_spec(ok: bool, detail: Seq<char>) -> Seq<char> {
    let title = if ok { "PT HELPERS INSTALLED"@ } else { "PT INSTALL FAILED"@ };
    PT_INSTALL_0@ + title + PT_INSTALL_1@ + escape_attr(detail) + PT_INSTALL_2@
}

/// The report after installing the pluggable-transport helpers; `detail`
/// is escaped.
pub fn pt_install_page(ok: bool, detail: &str) -> (r: String)
    ensures
        r@ == pt_install_page_spec(ok, detail@),
{
    let mut s = String::new();
    push_str(&mut s, PT_INSTALL_0);
    push_str(&mut s, if ok { "PT HELPERS INSTALLED" } else { "PT INSTALL FAILED" });
    push_str(&mut s, PT_INSTALL_1);
    let d = html_escape(detail);
    push_str(&mut s, d.as_str());
    push_str(&mut s, PT_INSTALL_2);
    s
}

/// The settings page; history shows as enabled exactly when its setting
/// is `true`, and the button offers the opposite.
pub open spec fn settings_page_spec(theme: Seq<char>, search_engine: Seq<char>, security_level: Seq<char>, history_enabled: Seq<char>) -> Seq<char> {
    let on = history_enabled == "true"@;
    let status = if on { "Enabled"@ } else { "Disabled"@ };
    let action = if on { "DISABLE"@ } else { "ENABLE"@ };
    SETTINGS_0@ + theme + SETTINGS_1@ + search_engine + SETTINGS_2@ + status + SETTINGS_3@ + action + SETTINGS_4@
        + security_level + SETTINGS_5@
}

/// The settings page (see `settings_page_spec`).
pub fn settings_page(theme: &str, search_engine: &str, security_level: &str, history_enabled: &str) -> (r: String)
    ensures
        r@ == settings_page_spec(theme@, search_engine@, security_level@, history_enabled@),
{
    let h = chars_of(history_enabled);
    let on = chars_eq(&h, &chars_of("true"));
    let mut s = String::new();
    push_str(&mut s, SETTINGS_0);
    push_str(&mut s, theme);
    push_str(&mut s, SETTINGS_1);
    push_str(&mut s, search_engine);
    push_str(&mut s, SETTINGS_2);
    push_str(&mut s, if on { "Enabled" } else { "Disabled" });
    push_str(&mut s, SETTINGS_3);
    push_str(&mut s, if on { "DISABLE" } else { "ENABLE" });
    push_str(&mut s, SETTINGS_4);
    push_str(&mut s, security_level);
    push_str(&mut s, SETTINGS_5);
    s
}

/// The page of external links.
pub fn dapps_page() -> (r: String)
    ensures
        r@ == DAPPS@,
{
    String::from_str(DAPPS)
}

/// The design-system showcase.
pub fn design_system_page() -> (r: String)
    ensures
        r@ == DESIGN_SYSTEM@,
{
    String::from_str(DESIGN_SYSTEM)
}

/// The interactive prototypes page.
pub fn prototypes_page() -> (r: String)
    ensures
        r@ == PROTOTYPES@,
{
    String::from_str(PROTOTYPES)
}

pub open spec fn network_menu_page_spec(pt_status: Seq<char>) -> Seq<char> {
    NETWORK_MENU_0@ + pt_status + NETWORK_MENU_1@
}

/// The bridge and transport menu, naming the transport status.
pub fn network_menu_page(pt_status: &str) -> (r: String)
    ensures
        r@ == network_menu_page_spec(pt_status@),
{
    let mut s = String::new();
    push_str(&mut s, NETWORK_MENU_0);
    push_str(&mut s, pt_status);
    push_str(&mut s, NETWORK_MENU_1);
    s
}

pub open spec fn security_page_spec(level: Seq<char>, dns: Seq<char>, webrtc: Seq<char>, fingerprint: Seq<char>) -> Seq<char> {
    SECURITY_0@ + level + SECURITY_1@ + dns + SECURITY_2@ + webrtc + SECURITY_3@ + fingerprint + SECURITY_4@
}

/// The security audit page.
pub fn security_page(level: &str, dns: &str, webrtc: &str, fingerprint: &str) -> (r: String)
    ensures
        r@ == security_page_spec(level@, dns@, webrtc@, fingerprint@),
{
    let mut s = String::new();
    push_str(&mut s, SECURITY_0);
    push_str(&mut s, level);
    push_str(&mut s, SECURITY_1);
    push_str(&mut s, dns);
    push_str(&mut s, SECURITY_2);
    push_str(&mut s, webrtc);
    push_str(&mut s, SECURITY_3);
    push_str(&mut s, fingerprint);
    push_str(&mut s, SECURITY_4);
    s
}

/// One download row: `(url, filename, status, time)`.
pub open spec fn download_item(d: (Seq<char>, Seq<char>, Seq<char>, Seq<char>)) -> Seq<char> {
    DOWNLOAD_ITEM_0@ + d.1 + DOWNLOAD_ITEM_1@ + d.0 + DOWNLOAD_ITEM_2@ + d.2 + DOWNLOAD_ITEM_3@ + d.3 + DOWNLOAD_ITEM_4@
}

pub open spec fn download_items(ds: Seq<(Seq<char>, Seq<char>, Seq<char>, Seq<char>)>) -> Seq<char>
    decreases ds.len(),
{
    if ds.len() == 0 {
        seq![]
    } else {
        download_items(ds.drop_last()) + download_item(ds.last())
    }
}

pub open spec fn quad_views(v: Seq<(String, String, String, String)>) -> Seq<(Seq<char>, Seq<char>, Seq<char>, Seq<char>)> {
    v.map_values(|t: (String, String, String, String)| (t.0@, t.1@, t.2@, t.3@))
}

/// The downloads page: one row per download, or a note when there are
/// none.
pub open spec fn downloads_page_spec(ds: Seq<(Seq<char>, Seq<char>, Seq<char>, Seq<char>)>) -> Seq<char> {
    let items = download_items(ds);
    DOWNLOADS_0@ + (if items.len() == 0 { "<p>No active or past downloads found.</p>"@ } else { items }) + DOWNLOADS_1@
}

/// The downloads page (see `downloads_page_spec`); each entry is
/// `(url, filename, status, time)`.
pub fn downloads_page(downloads: Vec<(String, String, String, String)>) -> (r: String)
    ensures
        r@ == downloads_page_spec(quad_views(downloads@)),
{
    let ghost ds = quad_views(downloads@);
    let mut items = String::new();
    let mut i: usize = 0;
    while i < downloads.len()
        invariant
            i <= downloads@.len(),
            ds == quad_views(downloads@),
            items@ == download_items(ds.take(i as int)),
        decreases downloads@.len() - i,
    {
        let d = &downloads[i];
        assert(ds.take(i + 1).drop_last() =~= ds.take(i as int));
        push_str(&mut items, DOWNLOAD_ITEM_0);
        push_str(&mut items, d.1.as_str());
        push_str(&mut items, DOWNLOAD_ITEM_1);
        push_str(&mut items, d.0.as_str());
        push_str(&mut items, DOWNLOAD_ITEM_2);
        push_str(&mut items, d.2.as_str());
        push_str(&mut items, DOWNLOAD_ITEM_3);
        push_str(&mut items, d.3.as_str());
        push_str(&mut items, DOWNLOAD_ITEM_4);
        i += 1;
    }
    assert(ds.take(ds.len() as int) =~= ds);
    let mut s = String::new();
    push_str(&mut s, DOWNLOADS_0);
    if items.as_str().unicode_len() == 0 {
        push_str(&mut s, "<p>No active or past downloads found.</p>");
    } else {
        push_str(&mut s, items.as_str());
    }
    push_str(&mut s, DOWNLOADS_1);
    s
}

pub open spec fn download_complete_page_spec(filename: Seq<char>) -> Seq<char> {
    DOWNLOAD_COMPLETE_0@ + escape_attr(filename) + DOWNLOAD_COMPLETE_1@
}

/// The page after a finished download; the name is escaped.
pub fn download_complete_page(filename: &str) -> (r: String)
    ensures
        r@ == download_complete_page_spec(filename@),
{
    let mut s = String::new();
    push_str(&mut s, DOWNLOAD_COMPLETE_0);
    let f = html_escape(filename);
    push_str(&mut s, f.as_str());
    push_str(&mut s, DOWNLOAD_COMPLETE_1);
    s
}

pub open spec fn download_error_page_spec(msg: Seq<char>) -> Seq<char> {
    DOWNLOAD_ERROR_0@ + escape_attr(msg) + DOWNLOAD_ERROR_1@
}

/// The page after a failed download; the message is escaped.
pub fn download_error_page(msg: &str) -> (r: String)
    ensures
        r@ == download_error_page_spec(msg@),
{
    let mut s = String::new();
    push_str(&mut s, DOWNLOAD_ERROR_0);
    let m = html_escape(msg);
    push_str(&mut s, m.as_str());
    push_str(&mut s, DOWNLOAD_ERROR_1);
    s
}

/// One bookmark row: `(url, title)`.
pub open spec fn bookmark_item(b: (Seq<char>, Seq<char>)) -> Seq<char> {
    BOOKMARK_ITEM_0@ + b.1 + BOOKMARK_ITEM_1@ + b.0 + BOOKMARK_ITEM_2@ + b.0 + BOOKMARK_ITEM_3@
}

pub open spec fn bookmark_items(bs: Seq<(Seq<char>, Seq<char>)>) -> Seq<char>
    decreases bs.len(),
{
    if bs.len() == 0 {
        seq![]
    } else {
        bookmark_items(bs.drop_last()) + bookmark_item(bs.last())
    }
}

pub open spec fn pair_views(v: Seq<(String, String)>) -> Seq<(Seq<char>, Seq<char>)> {
    v.map_values(|t: (String, String)| (t.0@, t.1@))
}

pub open spec fn bookmarks_page_spec(bs: Seq<(Seq<char>, Seq<char>)>) -> Seq<char> {
    BOOKMARKS_0@ + bookmark_items(bs) + BOOKMARKS_1@
}

/// The bookmarks page, one row per `(url, title)`.
pub fn bookmarks_page(bookmarks: Vec<(String, String)>) -> (r: String)
    ensures
        r@ == bookmarks_page_spec(pair_views(bookmarks@)),
{
    let ghost bs = pair_views(bookmarks@);
    let mut items = String::new();
    let mut i: usize = 0;
    while i < bookmarks.len()
        invariant
            i <= bookmarks@.len(),
            bs == pair_views(bookmarks@),
            items@ == bookmark_items(bs.take(i as int)),
        decreases bookmarks@.len() - i,
    {
        let b = &bookmarks[i];
        assert(bs.take(i + 1).drop_last() =~= bs.take(i as int));
        push_str(&mut items, BOOKMARK_ITEM_0);
        push_str(&mut items, b.1.as_str());
        push_str(&mut items, BOOKMARK_ITEM_1);
        push_str(&mut items, b.0.as_str());
        push_str(&mut items, BOOKMARK_ITEM_2);
        push_str(&mut items, b.0.as_str());
        push_str(&mut items, BOOKMARK_ITEM_3);
        i += 1;
    }
    assert(bs.take(bs.len() as int) =~= bs);
    let mut s = String::new();
    push_str(&mut s, BOOKMARKS_0);
    push_str(&mut s, items.as_str());
    push_str(&mut s, BOOKMARKS_1);
    s
}

/// One history row: `(url, title, time)`.
pub open spec fn history_item(h: (Seq<char>, Seq<char>, Seq<char>)) -> Seq<char> {
    HISTORY_ITEM_0@ + h.1 + HISTORY_ITEM_1@ + h.0 + HISTORY_ITEM_2@ + h.2 + HISTORY_ITEM_3@ + h.0 + HISTORY_ITEM_4@
}

pub open spec fn history_items(hs: Seq<(Seq<char>, Seq<char>, Seq<char>)>) -> Seq<char>
    decreases hs.len(),
{
    if hs.len() == 0 {
        seq![]
    } else {
        history_items(hs.drop_last()) + history_item(hs.last())
    }
}

pub open spec fn triple_views(v: Seq<(String, String, String)>) -> Seq<(Seq<char>, Seq<char>, Seq<char>)> {
    v.map_values(|t: (String, String, String)| (t.0@, t.1@, t.2@))
}

pub open spec fn history_page_spec(hs: Seq<(Seq<char>, Seq<char>, Seq<char>)>) -> Seq<char> {
    HISTORY_0@ + history_items(hs) + HISTORY_1@
}

/// The history page, one row per `(url, title, time)`.
pub fn history_page(history: Vec<(String, String, String)>) -> (r: String)
    ensures
        r@ == history_page_spec(triple_views(history@)),
{
    let ghost hs = triple_views(history@);
    let mut items = String::new();
    let mut i: usize = 0;
    while i < history.len()
        invariant
            i <= history@.len(),
            hs == triple_views(history@),
            items@ == history_items(hs.take(i as int)),
        decreases history@.len() - i,
    {
        let h = &history[i];
        assert(hs.take(i + 1).drop_last() =~= hs.take(i as int));
        push_str(&mut items, HISTORY_ITEM_0);
        push_str(&mut items, h.1.as_str());
        push_str(&mut items, HISTORY_ITEM_1);
        push_str(&mut items, h.0.as_str());
        push_str(&mut items, HISTORY_ITEM_2);
        push_str(&mut items, h.2.as_str());
        push_str(&mut items, HISTORY_ITEM_3);
        push_str(&mut items, h.0.as_str());
        push_str(&mut items, HISTORY_ITEM_4);
        i += 1;
    }
    assert(hs.take(hs.len() as int) =~= hs);
    let mut s = String::new();
    push_str(&mut s, HISTORY_0);
    push_str(&mut s, items.as_str());
    push_str(&mut s, HISTORY_1);
    s
}

pub open spec fn error_page_spec(title: Seq<char>, message: Seq<char>) -> Seq<char> {
    ERROR_0@ + title + ERROR_1@ + message + ERROR_2@
}

/// An error page with a title and a message (neither escaped).
pub fn error_page(title: &str, message: &str) -> (r: String)
    ensures
        r@ == error_page_spec(title@, message@),
{
    let mut s = String::new();
    push_str(&mut s, ERROR_0);
    push_str(&mut s, title);
    push_str(&mut s, ERROR_1);
    push_str(&mut s, message);
    push_str(&mut s, ERROR_2);
    s
}

/// One proposal row, with its vote links.
pub open spec fn proposal_item(p: ProposalView) -> Seq<char> {
    let id = decimal(p.id as nat);
    PROPOSAL_ITEM_0@ + id + PROPOSAL_ITEM_1@ + p.title + PROPOSAL_ITEM_2@ + p.description + PROPOSAL_ITEM_3@ + p.author
        + PROPOSAL_ITEM_4@ + decimal(p.deadline as nat) + PROPOSAL_ITEM_5@ + id + PROPOSAL_ITEM_6@ + id + PROPOSAL_ITEM_7@
}

pub open spec fn proposal_items(ps: Seq<ProposalView>) -> Seq<char>
    decreases ps.len(),
{
    if ps.len() == 0 {
        seq![]
    } else {
        proposal_items(ps.drop_last()) + proposal_item(ps.last())
    }
}

fn proposal_row(p: &Proposal) -> (r: String)
    ensures
        r@ == proposal_item(p@),
{
    let mut items = String::new();
    push_str(&mut items, PROPOSAL_ITEM_0);
    push_decimal(&mut items, p.id);
    push_str(&mut items, PROPOSAL_ITEM_1);
    push_str(&mut items, p.title.as_str());
    push_str(&mut items, PROPOSAL_ITEM_2);
    push_str(&mut items, p.description.as_str());
    push_str(&mut items, PROPOSAL_ITEM_3);
    push_str(&mut items, p.author.as_str());
    push_str(&mut items, PROPOSAL_ITEM_4);
    push_decimal(&mut items, p.deadline);
    push_str(&mut items, PROPOSAL_ITEM_5);
    push_decimal(&mut items, p.id);
    push_str(&mut items, PROPOSAL_ITEM_6);
    push_decimal(&mut items, p.id);
    push_str(&mut items, PROPOSAL_ITEM_7);
    items
}

pub open spec fn governance_page_spec(ps: Seq<ProposalView>) -> Seq<char> {
    GOVERNANCE_0@ + decimal(ps.len()) + GOVERNANCE_1@ + proposal_items(ps) + GOVERNANCE_2@
}

/// The governance page: the number of proposals and one row per proposal.
pub fn governance_page(proposals: &[Proposal]) -> (r: String)
    ensures
        r@ == governance_page_spec(proposals@.map_values(|p: Proposal| p@)),
{
    let ghost ps = proposals@.map_values(|p: Proposal| p@);
    let mut items = String::new();
    let mut i: usize = 0;
    while i < proposals.len()
        invariant
            i <= proposals@.len(),
            ps == proposals@.map_values(|p: Proposal| p@),
            items@ == proposal_items(ps.take(i as int)),
        decreases proposals@.len() - i,
    {
        let p = &proposals[i];
        assert(ps.take(i + 1).drop_last() =~= ps.take(i as int));
        assert(ps[i as int] == p@);
        let row = proposal_row(p);
        push_str(&mut items, row.as_str());
        i += 1;
    }
    assert(ps.take(ps.len() as int) =~= ps);
    let mut s = String::new();
    push_str(&mut s, GOVERNANCE_0);
    push_decimal(&mut s, proposals.len() as u64);
    push_str(&mut s, GOVERNANCE_1);
    push_str(&mut s, items.as_str());
    push_str(&mut s, GOVERNANCE_2);
    s
}

pub open spec fn status_page_spec(summary: Seq<char>, protocol: Seq<char>, socks: Seq<char>, tor_ready: bool, active_conns: nat, memory_mb: nat, pt: Seq<char>) -> Seq<char> {
    STATUS_0@ + escape_attr(summary) + STATUS_1@ + escape_attr(protocol) + STATUS_2@
        + (if tor_ready { "ready"@ } else { "not ready"@ }) + STATUS_3@ + escape_attr(socks) + STATUS_4@
        + decimal(active_conns) + STATUS_5@ + decimal(memory_mb) + STATUS_6@ + escape_attr(pt) + STATUS_7@
}

/// The network status page; the texts are escaped.
pub fn status_page(summary: &str, protocol: &str, socks: &str, tor_ready: bool, active_conns: usize, memory_mb: u64, pt: &str) -> (r: String)
    ensures
        r@ == status_page_spec(summary@, protocol@, socks@, tor_ready, active_conns as nat, memory_mb as nat, pt@),
{
    let mut s = String::new();
    push_str(&mut s, STATUS_0);
    let e = html_escape(summary);
    push_str(&mut s, e.as_str());
    push_str(&mut s, STATUS_1);
    let e = html_escape(protocol);
    push_str(&mut s, e.as_str());
    push_str(&mut s, STATUS_2);
    push_str(&mut s, if tor_ready { "ready" } else { "not ready" });
    push_str(&mut s, STATUS_3);
    let e = html_escape(socks);
    push_str(&mut s, e.as_str());
    push_str(&mut s, STATUS_4);
    push_decimal(&mut s, active_conns as u64);
    push_str(&mut s, STATUS_5);
    push_decimal(&mut s, memory_mb);
    push_str(&mut s, STATUS_6);
    let e = html_escape(pt);
    push_str(&mut s, e.as_str());
    push_str(&mut s, STATUS_7);
    s
}

/// The name for the `{:?}` text of a string (quoted, with Rust's debug
/// escapes).
pub uninterp spec fn str_debug(s: Seq<char>) -> Seq<char>;

/// `format!("{:?}", s)` for a string slice: named `str_debug`.
#[verifier::external_body]
fn debug_quote(s: &str) -> (r: String)
    ensures
        r@ == str_debug(s@),
{
    format!("{:?}", s)
}

/// The `{:?}` text of a bridge, as `#[derive(Debug)]` writes it (the
/// bridge-less choice is written `None`).
pub open spec fn bridge_debug(b: TorBridge) -> Seq<char> {
    match b {
        TorBridge::NoBridge => "None"@,
        TorBridge::Obfs4 { addr, cert, iat_mode } => "Obfs4 { addr: "@ + str_debug(addr@) + ", cert: "@ + str_debug(
            cert@,
        ) + ", iat_mode: "@ + decimal(iat_mode as nat) + " }"@,
        TorBridge::Snowflake { broker, relay } => "Snowflake { broker: "@ + str_debug(broker@) + ", relay: "@
            + str_debug(relay@) + " }"@,
        TorBridge::Meek { url } => "Meek { url: "@ + str_debug(url@) + " }"@,
    }
}

/// The `{:?}` text of a V2Ray configuration.
pub open spec fn v2ray_debug(c: V2RayConfig) -> Seq<char> {
    match c {
        V2RayConfig::VMess { uuid, alter_id, security } => "VMess { uuid: "@ + str_debug(uuid@) + ", alter_id: "@
            + decimal(alter_id as nat) + ", security: "@ + str_debug(security@) + " }"@,
        V2RayConfig::VLESS { uuid, encryption, flow } => "VLESS { uuid: "@ + str_debug(uuid@) + ", encryption: "@
            + str_debug(encryption@) + ", flow: "@ + str_debug(flow@) + " }"@,
        V2RayConfig::Trojan { password } => "Trojan { password: "@ + str_debug(password@) + " }"@,
        V2RayConfig::Shadowsocks { method, password } => "Shadowsocks { method: "@ + str_debug(method@)
            + ", password: "@ + str_debug(password@) + " }"@,
    }
}

/// The `{:?}` text of a protocol, as `#[derive(Debug)]` writes it.
pub open spec fn protocol_debug(p: Protocol) -> Seq<char> {
    match p {
        Protocol::Clearweb => "Clearweb"@,
        Protocol::Tor { bridge } => "Tor { bridge: "@ + bridge_debug(bridge) + " }"@,
        Protocol::I2P => "I2P"@,
        Protocol::V2Ray(c) => "V2Ray("@ + v2ray_debug(c) + ")"@,
        Protocol::WireGuard { private_key, endpoint } => "WireGuard { private_key: "@ + str_debug(private_key@)
            + ", endpoint: "@ + str_debug(endpoint@) + " }"@,
    }
}

fn push_debug(s: &mut String, t: &str)
    ensures
        final(s)@ == old(s)@ + str_debug(t@),
{
    let q = debug_quote(t);
    push_str(s, q.as_str());
}

fn push_bridge_debug(s: &mut String, b: &TorBridge)
    ensures
        final(s)@ == old(s)@ + bridge_debug(*b),
{
    let ghost s0 = s@;
    match b {
        TorBridge::NoBridge => push_str(s, "None"),
        TorBridge::Obfs4 { addr, cert, iat_mode } => {
            push_str(s, "Obfs4 { addr: ");
            push_debug(s, addr.as_str());
            push_str(s, ", cert: ");
            push_debug(s, cert.as_str());
            push_str(s, ", iat_mode: ");
            push_decimal(s, *iat_mode as u64);
            push_str(s, " }");
        },
        TorBridge::Snowflake { broker, relay } => {
            push_str(s, "Snowflake { broker: ");
            push_debug(s, broker.as_str());
            push_str(s, ", relay: ");
            push_debug(s, relay.as_str());
            push_str(s, " }");
        },
        TorBridge::Meek { url } => {
            push_str(s, "Meek { url: ");
            push_debug(s, url.as_str());
            push_str(s, " }");
        },
    }
    assert(s@ =~= s0 + bridge_debug(*b));
}

fn push_v2ray_debug(s: &mut String, c: &V2RayConfig)
    ensures
        final(s)@ == old(s)@ + v2ray_debug(*c),
{
    let ghost s0 = s@;
    match c {
        V2RayConfig::VMess { uuid, alter_id, security } => {
            push_str(s, "VMess { uuid: ");
            push_debug(s, uuid.as_str());
            push_str(s, ", alter_id: ");
            push_decimal(s, *alter_id as u64);
            push_str(s, ", security: ");
            push_debug(s, security.as_str());
            push_str(s, " }");
        },
        V2RayConfig::VLESS { uuid, encryption, flow } => {
            push_str(s, "VLESS { uuid: ");
            push_debug(s, uuid.as_str());
            push_str(s, ", encryption: ");
            push_debug(s, encryption.as_str());
            push_str(s, ", flow: ");
            push_debug(s, flow.as_str());
            push_str(s, " }");
        },
        V2RayConfig::Trojan { password } => {
            push_str(s, "Trojan { password: ");
            push_debug(s, password.as_str());
            push_str(s, " }");
        },
        V2RayConfig::Shadowsocks { method, password } => {
            push_str(s, "Shadowsocks { method: ");
            push_debug(s, method.as_str());
            push_str(s, ", password: ");
            push_debug(s, password.as_str());
            push_str(s, " }");
        },
    }
    assert(s@ =~= s0 + v2ray_debug(*c));
}

/// The `{:?}` text of a protocol (see `protocol_debug`).
pub fn protocol_debug_text(p: &Protocol) -> (r: String)
    ensures
        r@ == protocol_debug(*p),
{
    let mut s = String::new();
    match p {
        Protocol::Clearweb => push_str(&mut s, "Clearweb"),
        Protocol::Tor { bridge } => {
            push_str(&mut s, "Tor { bridge: ");
            push_bridge_debug(&mut s, bridge);
            push_str(&mut s, " }");
        },
        Protocol::I2P => push_str(&mut s, "I2P"),
        Protocol::V2Ray(c) => {
            push_str(&mut s, "V2Ray(");
            push_v2ray_debug(&mut s, c);
            push_str(&mut s, ")");
        },
        Protocol::WireGuard { private_key, endpoint } => {
            push_str(&mut s, "WireGuard { private_key: ");
            push_debug(&mut s, private_key.as_str());
            push_str(&mut s, ", endpoint: ");
            push_debug(&mut s, endpoint.as_str());
            push_str(&mut s, " }");
        },
    }
    assert(s@ =~= protocol_debug(*p));
    s
}

/// One saved profile row, with its switch link.
pub open spec fn profile_item(name: Seq<char>, protocol: Protocol) -> Seq<char> {
    CONNECT_ITEM_0@ + protocol_debug(protocol) + CONNECT_ITEM_1@ + name + CONNECT_ITEM_2@ + name + CONNECT_ITEM_3@
}

pub open spec fn profile_items(ps: Seq<ConnectionProfile>) -> Seq<char>
    decreases ps.len(),
{
    if ps.len() == 0 {
        seq![]
    } else {
        profile_items(ps.drop_last()) + profile_item(ps.last().name@, ps.last().protocol)
    }
}

/// The connect page: status, transport status and the saved profiles (a
/// note when there are none).
pub open spec fn connect_page_spec(status: Seq<char>, ps: Seq<ConnectionProfile>, pt_status: Seq<char>) -> Seq<char> {
    let items = profile_items(ps);
    CONNECT_0@ + status + CONNECT_1@ + pt_status + CONNECT_2@
        + (if items.len() == 0 { "<p>No saved profiles.</p>"@ } else { items }) + CONNECT_3@
}

/// The connect page (see `connect_page_spec`).
pub fn connect_page(status: &str, profiles: Vec<ConnectionProfile>, pt_status: &str) -> (r: String)
    ensures
        r@ == connect_page_spec(status@, profiles@, pt_status@),
{
    let mut items = String::new();
    let mut i: usize = 0;
    while i < profiles.len()
        invariant
            i <= profiles@.len(),
            items@ == profile_items(profiles@.take(i as int)),
        decreases profiles@.len() - i,
    {
        let p = &profiles[i];
        assert(profiles@.take(i + 1).drop_last() =~= profiles@.take(i as int));
        push_str(&mut items, CONNECT_ITEM_0);
        let d = protocol_debug_text(&p.protocol);
        push_str(&mut items, d.as_str());
        push_str(&mut items, CONNECT_ITEM_1);
        push_str(&mut items, p.name.as_str());
        push_str(&mut items, CONNECT_ITEM_2);
        push_str(&mut items, p.name.as_str());
        push_str(&mut items, CONNECT_ITEM_3);
        i += 1;
    }
    assert(profiles@.take(profiles@.len() as int) =~= profiles@);
    let mut s = String::new();
    push_str(&mut s, CONNECT_0);
    push_str(&mut s, status);
    push_str(&mut s, CONNECT_1);
    push_str(&mut s, pt_status);
    push_str(&mut s, CONNECT_2);
    if items.as_str().unicode_len() == 0 {
        push_str(&mut s, "<p>No saved profiles.</p>");
    } else {
        push_str(&mut s, items.as_str());
    }
    push_str(&mut s, CONNECT_3);
    s
}

pub const RESULT_CARD_0: &'static str = r##"<div class="result"##;

pub const RESULT_CARD_1: &'static str = r##"">
                    <div>"##;

pub const RESULT_CARD_2: &'static str = r##" <b>"##;

pub const RESULT_CARD_3: &'static str = r##"</b></div>
                    <div class="onion-url"><a href=""##;

pub const RESULT_CARD_4: &'static str = r##"">"##;

pub const RESULT_CARD_5: &'static str = r##"</a></div>
                    <p>"##;

pub const RESULT_CARD_6: &'static str = r##"</p>
                    <p><a href=""##;

pub const RESULT_CARD_7: &'static str = r##"">Open</a> · <a href="sentinel://add_bookmark?url="##;

pub const RESULT_CARD_8: &'static str = r##"&title="##;

pub const RESULT_CARD_9: &'static str = r##"">Bookmark</a></p>
                </div>"##;

pub const SEARCH_PAGE_0: &'static str = r##"
    <html>
        <body>
            <section>
                <h1>HORUS SEARCH</h1>
                <p>Google-free · Query: ""##;

pub const SEARCH_PAGE_1: &'static str = r##"" · Onion results are marked and require Tor</p>
            </section>
            <section>
                <h2>Dark Web (.onion)</h2>
                "##;

pub const SEARCH_PAGE_2: &'static str = r##"
            </section>
            <section>
                <h2>Clearnet &amp; Local Index</h2>
                "##;

pub const SEARCH_PAGE_3: &'static str = r##"
            </section>
            <section>
                <h2>Other Networks</h2>
                "##;

pub const SEARCH_PAGE_4: &'static str = r##"
            </section>
        </body>
    </html>
    "##;

pub const BADGE_ONION: &'static str = r##"<span class="badge-onion">ONION</span>"##;

pub const BADGE_LOCAL: &'static str = r##"<span class="badge-clear">LOCAL INDEX</span>"##;

pub const BADGE_CLEARNET: &'static str = r##"<span class="badge-clear">CLEARNET</span>"##;

pub const NO_RESULTS_YET: &'static str = r##"<p>No results yet. Horus indexes grow as you browse and via Ahmia (Tor). Configure <code>SENTINEL_SEARX_URL</code> for your SearXNG instance — never Google.</p>"##;

pub const NO_ONION_HITS: &'static str = r##"<p>No dark-web hits for this query (Ahmia needs Tor). Try another term or wait for SOCKS.</p>"##;

pub const NO_CLEARNET_HITS: &'static str = r##"<p>No clearnet/local hits.</p>"##;

/// A hit shown in the onion section: an onion badge, a Tor source or an
/// onion address.
pub open spec fn shown_as_onion(r: ResultView) -> bool {
    r.badge == ResultBadge::Onion || r.source is Tor || is_onion_url(r.url)
}

/// A hit shown in the clear-web section.
pub open spec fn shown_as_clearnet(r: ResultView) -> bool {
    !shown_as_onion(r) && (r.source is SurfaceWeb || r.badge == ResultBadge::Clearnet || r.badge == ResultBadge::Local)
}

pub open spec fn badge_html(r: ResultView) -> Seq<char> {
    if shown_as_onion(r) {
        BADGE_ONION@
    } else if r.badge == ResultBadge::Local {
        BADGE_LOCAL@
    } else {
        BADGE_CLEARNET@
    }
}

/// The card of one hit; its texts are escaped.
pub open spec fn result_card(r: ResultView) -> Seq<char> {
    let t = escape_attr(r.title);
    let u = escape_attr(r.url);
    RESULT_CARD_0@ + (if shown_as_onion(r) { " onion"@ } else { seq![] }) + RESULT_CARD_1@ + badge_html(r) + RESULT_CARD_2@
        + t + RESULT_CARD_3@ + u + RESULT_CARD_4@ + u + RESULT_CARD_5@ + escape_attr(r.description) + RESULT_CARD_6@ + u
        + RESULT_CARD_7@ + u + RESULT_CARD_8@ + t + RESULT_CARD_9@
}

/// Hit `r` belongs to section `k`: 0 onion, 1 clear web, 2 other networks.
pub open spec fn in_section(r: ResultView, k: int) -> bool {
    if k == 0 {
        shown_as_onion(r)
    } else if k == 1 {
        shown_as_clearnet(r)
    } else {
        !shown_as_onion(r) && !shown_as_clearnet(r)
    }
}

/// The cards of section `k`, in result order.
pub open spec fn section_cards(rs: Seq<ResultView>, k: int) -> Seq<char>
    decreases rs.len(),
{
    if rs.len() == 0 {
        seq![]
    } else {
        section_cards(rs.drop_last(), k) + if in_section(rs.last(), k) { result_card(rs.last()) } else { seq![] }
    }
}

/// The results page: the escaped query, then the onion, clear-web and
/// other-network sections, each with a note when empty (with no results
/// at all, the clear-web section explains how the index grows).
pub open spec fn search_results_page_spec(query: Seq<char>, rs: Seq<ResultView>) -> Seq<char> {
    let on = section_cards(rs, 0);
    let cl = section_cards(rs, 1);
    let ot = section_cards(rs, 2);
    SEARCH_PAGE_0@ + escape_attr(query) + SEARCH_PAGE_1@ + (if on.len() == 0 { NO_ONION_HITS@ } else { on }) + SEARCH_PAGE_2@
        + (if rs.len() == 0 { NO_RESULTS_YET@ } else if cl.len() == 0 { NO_CLEARNET_HITS@ } else { cl }) + SEARCH_PAGE_3@
        + (if ot.len() == 0 { "<p>None</p>"@ } else { ot }) + SEARCH_PAGE_4@
}

fn shown_as_onion_exec(r: &SearchResult) -> (b: bool)
    ensures
        b == shown_as_onion(r@),
{
    let tor = match r.source {
        NetworkType::Tor => true,
        _ => false,
    };
    let u = chars_of(r.url.as_str());
    r.badge == ResultBadge::Onion || tor || contains_text_chars(&u, &chars_of(".onion"))
}

fn result_card_text(r: &SearchResult) -> (s: String)
    ensures
        s@ == result_card(r@),
{
    proof {
        reveal_strlit("");
        assert(""@ =~= Seq::<char>::empty());
    }
    let onion = shown_as_onion_exec(r);
    let t = html_escape(r.title.as_str());
    let u = html_escape(r.url.as_str());
    let d = html_escape(r.description.as_str());
    let mut s = String::new();
    push_str(&mut s, RESULT_CARD_0);
    push_str(&mut s, if onion { " onion" } else { "" });
    push_str(&mut s, RESULT_CARD_1);
    if onion {
        push_str(&mut s, BADGE_ONION);
    } else if r.badge == ResultBadge::Local {
        push_str(&mut s, BADGE_LOCAL);
    } else {
        push_str(&mut s, BADGE_CLEARNET);
    }
    push_str(&mut s, RESULT_CARD_2);
    push_str(&mut s, t.as_str());
    push_str(&mut s, RESULT_CARD_3);
    push_str(&mut s, u.as_str());
    push_str(&mut s, RESULT_CARD_4);
    push_str(&mut s, u.as_str());
    push_str(&mut s, RESULT_CARD_5);
    push_str(&mut s, d.as_str());
    push_str(&mut s, RESULT_CARD_6);
    push_str(&mut s, u.as_str());
    push_str(&mut s, RESULT_CARD_7);
    push_str(&mut s, u.as_str());
    push_str(&mut s, RESULT_CARD_8);
    push_str(&mut s, t.as_str());
    push_str(&mut s, RESULT_CARD_9);
    s
}

/// The search results page (see `search_results_page_spec`).
pub fn search_results_page(query: &str, results: Vec<SearchResult>) -> (r: String)
    ensures
        r@ == search_results_page_spec(query@, results_view(results@)),
{
    proof {
        reveal_strlit("");
    }
    let ghost rs = results_view(results@);
    let mut onion = String::new();
    let mut clearnet = String::new();
    let mut other = String::new();
    let mut i: usize = 0;
    while i < results.len()
        invariant
            i <= results@.len(),
            rs == results_view(results@),
            onion@ == section_cards(rs.take(i as int), 0),
            clearnet@ == section_cards(rs.take(i as int), 1),
            other@ == section_cards(rs.take(i as int), 2),
        decreases results@.len() - i,
    {
        let res = &results[i];
        assert(rs.take(i + 1).drop_last() =~= rs.take(i as int));
        assert(rs.take(i + 1).last() == res@);
        let card = result_card_text(res);
        let is_onion = shown_as_onion_exec(res);
        let surface = match res.source {
            NetworkType::SurfaceWeb => true,
            _ => false,
        };
        if is_onion {
            push_str(&mut onion, card.as_str());
        } else if surface || res.badge == ResultBadge::Clearnet || res.badge == ResultBadge::Local {
            push_str(&mut clearnet, card.as_str());
        } else {
            push_str(&mut other, card.as_str());
        }
        assert(onion@ =~= section_cards(rs.take(i + 1), 0));
        assert(clearnet@ =~= section_cards(rs.take(i + 1), 1));
        assert(other@ =~= section_cards(rs.take(i + 1), 2));
        i += 1;
    }
    assert(rs.take(results@.len() as int) =~= rs);
    let mut s = String::new();
    push_str(&mut s, SEARCH_PAGE_0);
    let q = html_escape(query);
    push_str(&mut s, q.as_str());
    push_str(&mut s, SEARCH_PAGE_1);
    if onion.as_str().unicode_len() == 0 {
        push_str(&mut s, NO_ONION_HITS);
    } else {
        push_str(&mut s, onion.as_str());
    }
    push_str(&mut s, SEARCH_PAGE_2);
    if results.len() == 0 {
        push_str(&mut s, NO_RESULTS_YET);
    } else if clearnet.as_str().unicode_len() == 0 {
        push_str(&mut s, NO_CLEARNET_HITS);
    } else {
        push_str(&mut s, clearnet.as_str());
    }
    push_str(&mut s, SEARCH_PAGE_3);
    if other.as_str().unicode_len() == 0 {
        push_str(&mut s, "<p>None</p>");
    } else {
        push_str(&mut s, other.as_str());
    }
    push_str(&mut s, SEARCH_PAGE_4);
    s
}

} // verus!
