//! The API-explorer documents served for a tenant: a static explorer
//! page, the Swagger shell around a reflected OpenAPI document, and the
//! error page shown when the runtime is unreachable.
//!
//! Each document is a fixed template with the caller's text spliced in;
//! the contracts give the result character by character.

use vstd::prelude::*;

verus! {

/// The explorer page for a project, its name spliced into the title and
/// the heading.
pub open spec fn swagger_html_of(name: Seq<char>) -> Seq<char> {
    r#"<!DOCTYPE html>
<html lang="en">
<head>
    <meta charset="UTF-8">
    <title>"#@ + name
        + r#" - Axiom API Explorer</title>
    <style>
        body {
            font-family: -apple-system, BlinkMacSystemFont, "Segoe UI", Roboto, Helvetica, Arial, sans-serif;
            background-color: #0d1117;
            color: #c9d1d9;
            margin: 0;
            padding: 40px;
        }
        h1 {
            color: #10B981; /* Default GREEN Theme */
        }
        .endpoint {
            background: #161b22;
            border-left: 5px solid #10B981;
            padding: 20px;
            margin-bottom: 15px;
            border-radius: 6px;
        }
        .method {
            font-weight: bold;
            color: #10B981;
            margin-right: 15px;
        }
        .path {
            font-family: monospace;
            font-size: 1.1em;
        }
    </style>
</head>
<body>
    <h1>🚀 "#@ + name
        + r#" API Explorer</h1>
    <p>Powered by Axiom OS Anti-Gravity Wasm Runtime.</p>

    <h2>Available Endpoints</h2>

    <div class="endpoint">
        <span class="method">GET</span>
        <span class="path">/api/health</span>
        <p>Basic health check confirming the Wasm Kernel is active and responding.</p>
    </div>
</body>
</html>"#@
}

/// The explorer page for a project.
pub fn get_swagger_html(project_name: &str) -> (r: String)
    ensures
        r@ == swagger_html_of(project_name@),
{
    let mut s = (r#"<!DOCTYPE html>
<html lang="en">
<head>
    <meta charset="UTF-8">
    <title>"#).to_owned();
    s.append(project_name);
    s.append(
        r#" - Axiom API Explorer</title>
    <style>
        body {
            font-family: -apple-system, BlinkMacSystemFont, "Segoe UI", Roboto, Helvetica, Arial, sans-serif;
            background-color: #0d1117;
            color: #c9d1d9;
            margin: 0;
            padding: 40px;
        }
        h1 {
            color: #10B981; /* Default GREEN Theme */
        }
        .endpoint {
            background: #161b22;
            border-left: 5px solid #10B981;
            padding: 20px;
            margin-bottom: 15px;
            border-radius: 6px;
        }
        .method {
            font-weight: bold;
            color: #10B981;
            margin-right: 15px;
        }
        .path {
            font-family: monospace;
            font-size: 1.1em;
        }
    </style>
</head>
<body>
    <h1>🚀 "#,
    );
    s.append(project_name);
    s.append(
        r#" API Explorer</h1>
    <p>Powered by Axiom OS Anti-Gravity Wasm Runtime.</p>

    <h2>Available Endpoints</h2>

    <div class="endpoint">
        <span class="method">GET</span>
        <span class="path">/api/health</span>
        <p>Basic health check confirming the Wasm Kernel is active and responding.</p>
    </div>
</body>
</html>"#,
    );
    s
}

/// The error page shown when a tenant's runtime cannot be reached, the
/// package id in the title and the reason in the body.
pub open spec fn error_template_of(package_id: Seq<char>, reason: Seq<char>) -> Seq<char> {
    r#"<!DOCTYPE html>
<html lang="en">
<head>
    <meta charset="UTF-8">
    <title>API Explorer Error - "#@ + package_id
        + r#"</title>
    <style>
        body {
            margin: 0;
            background: #0d1117;
            color: #c9d1d9;
            font-family: -apple-system, BlinkMacSystemFont, "Segoe UI", Roboto, Helvetica, Arial, sans-serif;
            display: flex;
            align-items: center;
            justify-content: center;
            height: 100vh;
            text-align: center;
        }
        .container {
            max-width: 600px;
            padding: 40px;
            background: #161b22;
            border: 1px border #30363d;
            border-radius: 12px;
            box-shadow: 0 8px 24px rgba(0,0,0,0.5);
        }
        h1 { color: #ff7b72; font-size: 24px; margin-bottom: 16px; }
        p { color: #8b949e; line-height: 1.6; margin-bottom: 24px; }
        .code-box {
            background: #0d1117;
            padding: 12px;
            border-radius: 6px;
            font-family: ui-monospace, SFMono-Regular, SF Mono, Menlo, Consolas, Liberation Mono, monospace;
            font-size: 14px;
            color: #79c0ff;
            margin-bottom: 24px;
            border: 1px solid #30363d;
        }
        .hint {
            color: #d29922;
            font-weight: bold;
            font-size: 14px;
            text-transform: uppercase;
            letter-spacing: 0.05em;
        }
    </style>
</head>
<body>
    <div class="container">
        <h1 style="display: flex; align-items: center; justify-content: center; gap: 8px;">
            <svg xmlns="http://www.w3.org/2000/svg" width="28" height="28" viewBox="0 0 24 24" fill="none" stroke="currentColor" stroke-width="2" stroke-linecap="round" stroke-linejoin="round">
                <path d="m19 5 3-3"></path>
                <path d="m2 22 3-3"></path>
                <path d="M6.3 20.3a2.4 2.4 0 0 0 3.4 0L12 18l-6-6-2.3 2.3a2.4 2.4 0 0 0 0 3.4Z"></path>
                <path d="M7.5 13.5 10 16"></path>
                <path d="M10.5 16.5 13 19"></path>
                <path d="m12 6 6 6 2.3-2.3a2.4 2.4 0 0 0 0-3.4l-3.1-3.1a2.4 2.4 0 0 0-3.4 0Z"></path>
            </svg>
            Service is down
        </h1>
        <p>"#@ + reason
        + r#"</p>
        <div class="hint">Troubleshooting</div>
        <p>Please check if the Axiom Shell is running for this package. Try executing:</p>
        <div class="code-box">ax deploy dev</div>
        <p style="font-size: 13px;">This will ensure the kernel is compiled and loaded into a live Shell slot.</p>
    </div>
</body>
</html>"#@
}

/// The error page shown when a tenant's runtime cannot be reached.
pub fn render_error_template(package_id: &str, reason: &str) -> (r: String)
    ensures
        r@ == error_template_of(package_id@, reason@),
{
    let mut s = (r#"<!DOCTYPE html>
<html lang="en">
<head>
    <meta charset="UTF-8">
    <title>API Explorer Error - "#).to_owned();
    s.append(package_id);
    s.append(
        r#"</title>
    <style>
        body {
            margin: 0;
            background: #0d1117;
            color: #c9d1d9;
            font-family: -apple-system, BlinkMacSystemFont, "Segoe UI", Roboto, Helvetica, Arial, sans-serif;
            display: flex;
            align-items: center;
            justify-content: center;
            height: 100vh;
            text-align: center;
        }
        .container {
            max-width: 600px;
            padding: 40px;
            background: #161b22;
            border: 1px border #30363d;
            border-radius: 12px;
            box-shadow: 0 8px 24px rgba(0,0,0,0.5);
        }
        h1 { color: #ff7b72; font-size: 24px; margin-bottom: 16px; }
        p { color: #8b949e; line-height: 1.6; margin-bottom: 24px; }
        .code-box {
            background: #0d1117;
            padding: 12px;
            border-radius: 6px;
            font-family: ui-monospace, SFMono-Regular, SF Mono, Menlo, Consolas, Liberation Mono, monospace;
            font-size: 14px;
            color: #79c0ff;
            margin-bottom: 24px;
            border: 1px solid #30363d;
        }
        .hint {
            color: #d29922;
            font-weight: bold;
            font-size: 14px;
            text-transform: uppercase;
            letter-spacing: 0.05em;
        }
    </style>
</head>
<body>
    <div class="container">
        <h1 style="display: flex; align-items: center; justify-content: center; gap: 8px;">
            <svg xmlns="http://www.w3.org/2000/svg" width="28" height="28" viewBox="0 0 24 24" fill="none" stroke="currentColor" stroke-width="2" stroke-linecap="round" stroke-linejoin="round">
                <path d="m19 5 3-3"></path>
                <path d="m2 22 3-3"></path>
                <path d="M6.3 20.3a2.4 2.4 0 0 0 3.4 0L12 18l-6-6-2.3 2.3a2.4 2.4 0 0 0 0 3.4Z"></path>
                <path d="M7.5 13.5 10 16"></path>
                <path d="M10.5 16.5 13 19"></path>
                <path d="m12 6 6 6 2.3-2.3a2.4 2.4 0 0 0 0-3.4l-3.1-3.1a2.4 2.4 0 0 0-3.4 0Z"></path>
            </svg>
            Service is down
        </h1>
        <p>"#,
    );
    s.append(reason);
    s.append(
        r#"</p>
        <div class="hint">Troubleshooting</div>
        <p>Please check if the Axiom Shell is running for this package. Try executing:</p>
        <div class="code-box">ax deploy dev</div>
        <p style="font-size: 13px;">This will ensure the kernel is compiled and loaded into a live Shell slot.</p>
    </div>
</body>
</html>"#,
    );
    s
}

/// The Swagger shell around a reflected OpenAPI document: the title in
/// the head, the document spliced into the page's script.
pub open spec fn swagger_template_of(json_spec: Seq<char>, title: Seq<char>) -> Seq<char> {
    r#"<!DOCTYPE html>
<html lang="en">
<head>
    <meta charset="UTF-8">
    <title>"#@ + title
        + r#" - Axiom API Explorer</title>
    <link rel="stylesheet" type="text/css" href="https://unpkg.com/swagger-ui-dist@5/swagger-ui.css" >
    <style>
        html { box-sizing: border-box; overflow-y: scroll; }
        body { margin:0; background: #0d1117; color: #c9d1d9; }
        /* Dark Mode overrides for Swagger UI */
        .swagger-ui { filter: invert(88%) hue-rotate(180deg); }
        .swagger-ui .topbar { display: none; }
    </style>
</head>
<body>
    <div id="swagger-ui"></div>
    <script src="https://unpkg.com/swagger-ui-dist@5/swagger-ui-bundle.js"> </script>
    <script>
    window.onload = function() {
      window.ui = SwaggerUIBundle({
        spec: "#@ + json_spec
        + r#",
        dom_id: '#swagger-ui',
        deepLinking: true,
        presets: [
          SwaggerUIBundle.presets.apis
        ],
      });
    };
    </script>
</body>
</html>"#@
}

/// The Swagger shell around a reflected OpenAPI document.
pub fn render_swagger_template(json_spec: &str, title: &str) -> (r: String)
    ensures
        r@ == swagger_template_of(json_spec@, title@),
{
    let mut s = (r#"<!DOCTYPE html>
<html lang="en">
<head>
    <meta charset="UTF-8">
    <title>"#).to_owned();
    s.append(title);
    s.append(
        r#" - Axiom API Explorer</title>
    <link rel="stylesheet" type="text/css" href="https://unpkg.com/swagger-ui-dist@5/swagger-ui.css" >
    <style>
        html { box-sizing: border-box; overflow-y: scroll; }
        body { margin:0; background: #0d1117; color: #c9d1d9; }
        /* Dark Mode overrides for Swagger UI */
        .swagger-ui { filter: invert(88%) hue-rotate(180deg); }
        .swagger-ui .topbar { display: none; }
    </style>
</head>
<body>
    <div id="swagger-ui"></div>
    <script src="https://unpkg.com/swagger-ui-dist@5/swagger-ui-bundle.js"> </script>
    <script>
    window.onload = function() {
      window.ui = SwaggerUIBundle({
        spec: "#,
    );
    s.append(json_spec);
    s.append(
        r#",
        dom_id: '#swagger-ui',
        deepLinking: true,
        presets: [
          SwaggerUIBundle.presets.apis
        ],
      });
    };
    </script>
</body>
</html>"#,
    );
    s
}

} // verus!
