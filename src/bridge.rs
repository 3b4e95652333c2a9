//! Completion and event handlers that receive results in the form the foreign side
//! delivers them (UTF-16 units, opaque handles) and hand them on to a closure.
use vstd::prelude::*;
pub use crate::wide::{from_utf16, to_utf16};
use crate::wide::{utf16_decode, utf16_encode};

verus! {

/// Options for creating a browser environment, held as UTF-16 text.
pub struct WebView2EnvironmentOptions {
    pub aditional_browser_arguments: Vec<u16>,
    pub language: Vec<u16>,
    pub target_compatible_browser_version: Vec<u16>,
    pub allow_single_sign_on_using_os_primary_account: bool,
}

impl WebView2EnvironmentOptions {
    pub fn new(
        aditional_browser_arguments: &str,
        language: &str,
        target_compatible_browser_version: &str,
        allow_single_sign_on_using_os_primary_account: bool,
    ) -> (r: WebView2EnvironmentOptions)
        ensures
            r.aditional_browser_arguments@ == utf16_encode(aditional_browser_arguments@),
            r.language@ == utf16_encode(language@),
            r.target_compatible_browser_version@ == utf16_encode(
                target_compatible_browser_version@,
            ),
            r.allow_single_sign_on_using_os_primary_account
                == allow_single_sign_on_using_os_primary_account,
    {
        WebView2EnvironmentOptions {
            aditional_browser_arguments: to_utf16(aditional_browser_arguments),
            language: to_utf16(language),
            target_compatible_browser_version: to_utf16(target_compatible_browser_version),
            allow_single_sign_on_using_os_primary_account,
        }
    }
}

/// The rectangle a controller occupies in its parent window.
#[derive(Clone, Copy, Debug, PartialEq, Eq, Structural)]
pub struct WebView2ControllerBounds {
    pub left: i32,
    pub top: i32,
    pub right: i32,
    pub bottom: i32,
}

impl Default for WebView2ControllerBounds {
    fn default() -> (r: Self)
        ensures
            r.left == 0 && r.top == 0 && r.right == 0 && r.bottom == 0,
    {
        WebView2ControllerBounds { left: 0, top: 0, right: 0, bottom: 0 }
    }
}

/// The boolean settings of a browser view.
#[derive(Clone, Copy, Debug, PartialEq, Eq, Structural)]
pub struct WebView2Settings {
    pub is_script_enabled: bool,
    pub is_web_message_enabled: bool,
    pub are_default_script_dialogs_enabled: bool,
    pub is_status_bar_enabled: bool,
    pub are_dev_tools_enabled: bool,
    pub are_default_context_menus_enabled: bool,
    pub is_zoom_control_enabled: bool,
    pub is_built_in_error_page_enabled: bool,
}

/// Receives a created environment, once.
pub struct CreateWebView2EnvironmentCompletedHandler<F> {
    callback: F,
}

impl<F> CreateWebView2EnvironmentCompletedHandler<F> {
    pub closed spec fn callback(&self) -> F {
        self.callback
    }

    pub fn new(callback: F) -> (r: Self)
        ensures
            r.callback() == callback,
    {
        Self { callback }
    }

    /// Hands the environment to the closure.
    pub fn handle<E>(self, environment: E) where F: FnOnce(E)
        requires
            self.callback().requires((environment,)),
        ensures
            self.callback().ensures((environment,), ()),
    {
        (self.callback)(environment);
    }
}

/// Delivers a created environment to its handler.
pub fn invoke_environment_complete<E, F: FnOnce(E)>(
    handler: Box<CreateWebView2EnvironmentCompletedHandler<F>>,
    environment: E,
)
    requires
        handler.callback().requires((environment,)),
    ensures
        handler.callback().ensures((environment,), ()),
{
    handler.handle(environment);
}

/// Receives a created controller, once.
pub struct CreateWebView2ControllerCompletedHandler<F> {
    callback: F,
}

impl<F> CreateWebView2ControllerCompletedHandler<F> {
    pub closed spec fn callback(&self) -> F {
        self.callback
    }

    pub fn new(callback: F) -> (r: Self)
        ensures
            r.callback() == callback,
    {
        Self { callback }
    }

    /// Hands the controller to the closure.
    pub fn handle<C>(self, controller: C) where F: FnOnce(C)
        requires
            self.callback().requires((controller,)),
        ensures
            self.callback().ensures((controller,), ()),
    {
        (self.callback)(controller);
    }
}

/// Delivers a created controller to its handler.
pub fn invoke_controller_complete<C, F: FnOnce(C)>(
    handler: Box<CreateWebView2ControllerCompletedHandler<F>>,
    controller: C,
)
    requires
        handler.callback().requires((controller,)),
    ensures
        handler.callback().ensures((controller,), ()),
{
    handler.handle(controller);
}

/// Learns, once, that a navigation has completed.
pub struct NavigationCompletedHandler<F> {
    callback: F,
}

impl<F> NavigationCompletedHandler<F> {
    pub closed spec fn callback(&self) -> F {
        self.callback
    }

    pub fn new(callback: F) -> (r: Self)
        ensures
            r.callback() == callback,
    {
        Self { callback }
    }

    /// Hands the view that navigated to the closure.
    pub fn handle<W>(self, webview: &W) where F: FnOnce(&W)
        requires
            self.callback().requires((webview,)),
        ensures
            self.callback().ensures((webview,), ()),
    {
        (self.callback)(webview);
    }
}

/// Delivers a completed navigation to its handler.
pub fn invoke_navigation_complete<W, F: FnOnce(&W)>(
    handler: Box<NavigationCompletedHandler<F>>,
    webview: &W,
)
    requires
        handler.callback().requires((webview,)),
    ensures
        handler.callback().ensures((webview,), ()),
{
    handler.handle(webview)
}

/// Receives, once, the identifier of a script added to run on each new document.
pub struct AddScriptToExecuteOnDocumentCreatedCompletedHandler<F> {
    callback: F,
}

impl<F: FnOnce(String)> AddScriptToExecuteOnDocumentCreatedCompletedHandler<F> {
    pub closed spec fn callback(&self) -> F {
        self.callback
    }

    pub fn new(callback: F) -> (r: Self)
        ensures
            r.callback() == callback,
    {
        Self { callback }
    }

    /// Hands the identifier to the closure.
    pub fn handle(self, result: String)
        requires
            self.callback().requires((result,)),
        ensures
            self.callback().ensures((result,), ()),
    {
        (self.callback)(result);
    }
}

/// Decodes the identifier and delivers it to its handler.
pub fn invoke_add_script_on_document_created_complete<F: FnOnce(String)>(
    handler: Box<AddScriptToExecuteOnDocumentCreatedCompletedHandler<F>>,
    id: Vec<u16>,
)
    requires
        forall|s: String| s@ == utf16_decode(id@) ==> #[trigger] handler.callback().requires((s,)),
    ensures
        exists|s: String| s@ == utf16_decode(id@) && #[trigger] handler.callback().ensures((s,), ()),
{
    let s = from_utf16(id.as_slice());
    handler.handle(s);
}

/// Receives, once, the JSON text that a script evaluated to.
pub struct ExecuteScriptCompletedHandler<F> {
    callback: F,
}

impl<F: FnOnce(String)> ExecuteScriptCompletedHandler<F> {
    pub closed spec fn callback(&self) -> F {
        self.callback
    }

    pub fn new(callback: F) -> (r: Self)
        ensures
            r.callback() == callback,
    {
        Self { callback }
    }

    /// Hands the result to the closure.
    pub fn handle(self, result: String)
        requires
            self.callback().requires((result,)),
        ensures
            self.callback().ensures((result,), ()),
    {
        (self.callback)(result);
    }
}

/// Decodes a script's result and delivers it to its handler.
pub fn invoke_execute_script_complete<F: FnOnce(String)>(
    handler: Box<ExecuteScriptCompletedHandler<F>>,
    result: Vec<u16>,
)
    requires
        forall|s: String| s@ == utf16_decode(result@) ==> #[trigger] handler.callback().requires((s,)),
    ensures
        exists|s: String| s@ == utf16_decode(result@) && #[trigger] handler.callback().ensures((s,), ()),
{
    let s = from_utf16(result.as_slice());
    handler.handle(s);
}

/// Receives every message that page content posts, with the page's source.
pub struct WebMessageReceivedHandler<F> {
    callback: F,
}

impl<F: Fn(String, String)> WebMessageReceivedHandler<F> {
    pub closed spec fn callback(&self) -> F {
        self.callback
    }

    pub fn new(callback: F) -> (r: Self)
        ensures
            r.callback() == callback,
    {
        Self { callback }
    }

    /// Hands the source and the message to the closure, which stays for later messages.
    pub fn handle(&self, source: String, message: String)
        requires
            self.callback().requires((source, message)),
        ensures
            self.callback().ensures((source, message), ()),
    {
        (self.callback)(source, message);
    }
}

/// Decodes a posted message and its source and delivers them to the handler.
pub fn invoke_web_message_received<F: Fn(String, String)>(
    handler: &WebMessageReceivedHandler<F>,
    source: Vec<u16>,
    message: Vec<u16>,
)
    requires
        forall|s: String, m: String|
            s@ == utf16_decode(source@) && m@ == utf16_decode(message@)
                ==> #[trigger] handler.callback().requires((s, m)),
    ensures
        exists|s: String, m: String|
            s@ == utf16_decode(source@) && m@ == utf16_decode(message@)
                && #[trigger] handler.callback().ensures((s, m), ()),
{
    let s = from_utf16(source.as_slice());
    let m = from_utf16(message.as_slice());
    handler.handle(s, m);
}

} // verus!
