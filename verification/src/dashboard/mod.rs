//! The settings dashboard page.

pub mod simple;
pub mod sys_integration;

use vstd::prelude::*;

use crate::text::{decimal, decimal_string, push_str};

verus! {

/// Page text before the volume card's state class.
pub const PAGE_0: &'static str = "<!DOCTYPE html>\n        <html lang=\"es\">\n        <head>\n          <meta charset=\"UTF-8\">\n          <meta name=\"viewport\" content=\"width=device-width, initial-scale=1.0\">\n          <title>Sistema de Presentaciones</title>\n          <link rel=\"preconnect\" href=\"https://fonts.googleapis.com\">\n          <link rel=\"preconnect\" href=\"https://fonts.gstatic.com\" crossorigin>\n          <link href=\"https://fonts.googleapis.com/css2?family=Inter:wght@400;500;600&display=swap\" rel=\"stylesheet\">\n          <style>\n            *, *::before, *::after {\n              margin: 0;\n              padding: 0;\n              box-sizing: border-box;\n            }\n\n            :root {\n              --bg: #1a1a1a;\n              --fg: #e8e8e8;\n              --card: #232323;\n              --card-fg: #e8e8e8;\n              --secondary: #2e2e2e;\n              --secondary-fg: #d4d4d4;\n              --muted-fg: #737373;\n              --muted-fg-dim: rgba(115, 115, 115, 0.6);\n              --accent: #34d399;\n              --accent-dim: rgba(52, 211, 153, 0.1);\n              --accent-border: rgba(52, 211, 153, 0.3);\n              --border: #333;\n              --border-dim: rgba(51, 51, 51, 0.6);\n              --radius: 0.5rem;\n            }\n\n            body {\n              font-family: 'Inter', -apple-system, BlinkMacSystemFont, 'Segoe UI', sans-serif;\n              background-color: var(--bg);\n              color: var(--fg);\n              min-height: 100dvh;\n              -webkit-font-smoothing: antialiased;\n              -moz-osx-font-smoothing: grayscale;\n            }\n\n            /* Layout */\n            .container {\n              max-width: 672px;\n              margin: 0 auto;\n              padding: 1.5rem 1rem;\n            }\n\n            /* Header */\n            .header {\n              display: flex;\n              flex-direction: column;\n              gap: 1rem;\n            }\n\n            .header-info {\n              display: flex;\n              align-items: center;\n              gap: 0.75rem;\n            }\n\n            .header-icon {\n              flex-shrink: 0;\n              width: 2.25rem;\n              height: 2.25rem;\n              display: flex;\n              align-items: center;\n              justify-content: center;\n              border-radius: var(--radius);\n              background: var(--accent-dim);\n              color: var(--accent);\n            }\n\n            .header-text {\n              min-width: 0;\n            }\n\n            .header-title-row {\n              display: flex;\n              align-items: center;\n              gap: 0.5rem;\n            }\n\n            .header-title {\n              font-size: 1rem;\n              font-weight: 600;\n              letter-spacing: -0.01em;\n              color: var(--fg);\n              overflow: hidden;\n              text-overflow: ellipsis;\n              white-space: nowrap;\n            }\n\n            .badge {\n              flex-shrink: 0;\n              font-size: 0.75rem;\n              font-weight: 500;\n              padding: 0.125rem 0.5rem;\n              border-radius: 9999px;\n              border: 1px solid var(--accent-border);\n              color: var(--accent);\n              line-height: 1.4;\n            }\n\n            .header-subtitle {\n              font-size: 0.75rem;\n              color: var(--muted-fg);\n              margin-top: 0.125rem;\n            }\n\n            .btn-presentation {\n              display: inline-flex;\n              width: 100%;\n              align-items: center;\n              justify-content: center;\n              gap: 0.5rem;\n              padding: 0.625rem 1rem;\n              font-size: 0.875rem;\n              font-weight: 500;\n              font-family: inherit;\n              color: var(--fg);\n              background: var(--secondary);\n              border: 1px solid var(--border);\n              border-radius: var(--radius);\n              cursor: pointer;\n              text-decoration: none;\n              transition: background 0.15s, border-color 0.15s;\n            }\n\n            .btn-presentation:hover {\n              background: rgba(46, 46, 46, 0.8);\n              border-color: var(--accent-border);\n            }\n\n            .btn-presentation:hover .btn-icon {\n              color: var(--accent);\n            }\n\n            .btn-presentation:hover .btn-arrow {\n              transform: translateX(2px);\n            }\n\n            .btn-icon, .btn-arrow {\n              color: var(--muted-fg);\n              transition: color 0.15s, transform 0.15s;\n              flex-shrink: 0;\n            }\n\n            /* Separator */\n            .separator {\n              height: 1px;\n              background: var(--border);\n              border: none;\n              margin: 1.25rem 0;\n            }\n\n            /* Section */\n            .section-label {\n              font-size: 0.75rem;\n              font-weight: 500;\n              text-transform: uppercase;\n              letter-spacing: 0.05em;\n              color: var(--muted-fg);\n            }\n\n            .section-desc {\n              font-size: 0.75rem;\n              color: var(--muted-fg-dim);\n              margin-top: 0.375rem;\n            }\n\n            .settings-list {\n              margin-top: 1rem;\n              display: flex;\n              flex-direction: column;\n              gap: 1rem;\n            }\n\n            /* Limiter Card (clickable) */\n            .limiter-card {\n              display: flex;\n              width: 100%;\n              align-items: center;\n              gap: 0.75rem;\n              padding: 1rem;\n              text-align: left;\n              background: var(--card);\n              border: 1px solid var(--border-dim);\n              border-radius: 0.75rem;\n              cursor: pointer;\n              font-family: inherit;\n              color: inherit;\n              transition: background 0.15s, border-color 0.15s;\n            }\n\n            .limiter-card:hover {\n              border-color: var(--accent-border);\n              background: rgba(35, 35, 35, 0.8);\n            }\n\n            .limiter-card:active {\n              background: var(--secondary);\n            }\n\n            .limiter-card:disabled {\n              opacity: 0.6;\n              pointer-events: none;\n            }\n\n            .limiter-card:hover .limiter-icon-box {\n              background: var(--accent-dim);\n            }\n\n            .limiter-card:hover .limiter-icon-box svg {\n              color: var(--accent);\n            }\n\n            .limiter-icon-box {\n              flex-shrink: 0;\n              width: 2.25rem;\n              height: 2.25rem;\n              display: flex;\n              align-items: center;\n              justify-content: center;\n              border-radius: var(--radius);\n              background: var(--secondary);\n              transition: background 0.15s;\n            }\n\n            .limiter-icon-box svg {\n              color: var(--muted-fg);\n              transition: color 0.15s;\n            }\n\n            .limiter-text {\n              flex: 1;\n              min-width: 0;\n            }\n\n            .limiter-title {\n              font-size: 0.875rem;\n              font-weight: 600;\n              color: var(--card-fg);\n              display: block;\n            }\n\n            .limiter-desc {\n              font-size: 0.75rem;\n              color: var(--muted-fg);\n              display: block;\n              margin-top: 0.125rem;\n            }\n\n            /* Volume Card */\n            .volume-card {\n              display: flex;\n              width: 100%;\n              align-items: center;\n              gap: 0.75rem;\n              padding: 1rem;\n              background: var(--card);\n              border: 1px solid var(--border-dim);\n              border-radius: 0.75rem;\n              transition: border-color 0.15s;\n            }\n\n            .volume-card:hover {\n              border-color: var(--accent-border);\n            }\n\n            .volume-icon-box {\n              flex-shrink: 0;\n              width: 2.25rem;\n              height: 2.25rem;\n              display: flex;\n              align-items: center;\n              justify-content: center;\n              border-radius: var(--radius);\n              background: var(--secondary);\n            }\n\n            .volume-icon-box svg {\n              color: var(--muted-fg);\n            }\n\n            .volume-text {\n              flex: 1;\n              min-width: 0;\n            }\n\n            .volume-title {\n              font-size: 0.875rem;\n              font-weight: 600;\n              color: var(--card-fg);\n              display: block;\n            }\n\n            .volume-level {\n              font-size: 0.75rem;\n              color: var(--muted-fg);\n              display: block;\n              margin-top: 0.125rem;\n            }\n\n            .volume-controls {\n              display: flex;\n              align-items: center;\n              gap: 0.5rem;\n            }\n\n            .volume-btn {\n              width: 2rem;\n              height: 2rem;\n              display: flex;\n              align-items: center;\n              justify-content: center;\n              border-radius: var(--radius);\n              background: var(--secondary);\n              border: 1px solid var(--border);\n              color: var(--fg);\n              font-size: 1rem;\n              font-weight: 600;\n              cursor: pointer;\n              transition: background 0.15s, border-color 0.15s;\n            }\n\n            .volume-btn:hover {\n              background: rgba(46, 46, 46, 0.8);\n              border-color: var(--accent-border);\n            }\n\n            .volume-btn:active {\n              background: var(--accent);\n            }\n\n            .volume-card.disabled {\n              opacity: 0.5;\n              pointer-events: none;\n            }\n\n            .volume-card.disabled .volume-btn {\n              background: var(--secondary);\n              border-color: var(--border);\n              cursor: not-allowed;\n            }\n\n            @media (min-width: 640px) {\n              .volume-card {\n                gap: 1rem;\n                padding: 1.25rem;\n              }\n\n              .volume-icon-box {\n                width: 2.5rem;\n                height: 2.5rem;\n              }\n\n              .volume-title {\n                font-size: 1rem;\n              }\n\n              .volume-level {\n                font-size: 0.875rem;\n              }\n\n              .volume-btn {\n                width: 2.25rem;\n                height: 2.25rem;\n              }\n            }\n\n            /* Toggle switch */\n            .toggle {\n              flex-shrink: 0;\n              position: relative;\n              width: 2.75rem;\n              height: 1.5rem;\n              border-radius: 9999px;\n              background: var(--secondary);\n              border: 1px solid var(--border);\n              transition: background 0.2s, border-color 0.2s;\n              pointer-events: none;\n            }\n\n            .toggle.active {\n              background: var(--accent);\n              border-color: var(--accent);\n            }\n\n            .toggle-knob {\n              position: absolute;\n              top: 2px;\n              left: 2px;\n              width: 1.125rem;\n              height: 1.125rem;\n              border-radius: 50%;\n              background: white;\n              transition: transform 0.2s;\n              box-shadow: 0 1px 3px rgba(0, 0, 0, 0.3);\n            }\n\n            .toggle.active .toggle-knob {\n              transform: translateX(1.25rem);\n            }\n\n            /* Responsive: sm (640px+) */\n            @media (min-width: 640px) {\n              .container {\n                padding: 2.5rem 1.5rem;\n              }\n\n              .header {\n                flex-direction: row;\n                align-items: center;\n                justify-content: space-between;\n              }\n\n              .header-title {\n                font-size: 1.125rem;\n              }\n\n              .header-subtitle {\n                font-size: 0.875rem;\n              }\n\n              .btn-presentation {\n                width: auto;\n                padding-top: 0.5rem;\n                padding-bottom: 0.5rem;\n              }\n\n              .separator {\n                margin: 2rem 0;\n              }\n\n              .section-label {\n                font-size: 0.875rem;\n              }\n\n              .section-desc {\n                font-size: 0.875rem;\n              }\n\n              .settings-list {\n                margin-top: 1.5rem;\n              }\n\n              .limiter-card {\n                gap: 1rem;\n                padding: 1.25rem;\n              }\n\n              .limiter-icon-box {\n                width: 2.5rem;\n                height: 2.5rem;\n              }\n\n              .limiter-title {\n                font-size: 1rem;\n              }\n\n              .limiter-desc {\n                font-size: 0.875rem;\n              }\n              }\n\n            /* Responsive: md (768px+) */\n            @media (min-width: 768px) {\n              .container {\n                padding: 3rem 1.5rem;\n              }\n              }\n          </style>\n        </head>\n        <body>\n          <div class=\"container\">\n\n            <!-- Header -->\n            <header class=\"header\">\n              <div class=\"header-info\">\n                <div class=\"header-icon\">\n                  <svg width=\"20\" height=\"20\" viewBox=\"0 0 24 24\" fill=\"none\" stroke=\"currentColor\" stroke-width=\"2\" stroke-linecap=\"round\" stroke-linejoin=\"round\" aria-hidden=\"true\">\n                    <rect x=\"2\" y=\"3\" width=\"20\" height=\"14\" rx=\"2\"></rect>\n                    <path d=\"M8 21h8\"></path>\n                    <path d=\"M12 17v4\"></path>\n                  </svg>\n                </div>\n                <div class=\"header-text\">\n                  <div class=\"header-title-row\">\n                    <h1 class=\"header-title\">Sistema de Presentaciones</h1>\n                    <span class=\"badge\">v1.0</span>\n                  </div>\n                  <p class=\"header-subtitle\">Panel de configuracion</p>\n                </div>\n              </div>\n              <a href=\"/presentation\" class=\"btn-presentation\">\n                <svg class=\"btn-icon\" width=\"16\" height=\"16\" viewBox=\"0 0 24 24\" fill=\"none\" stroke=\"currentColor\" stroke-width=\"2\" stroke-linecap=\"round\" stroke-linejoin=\"round\" aria-hidden=\"true\">\n                  <polygon points=\"5 3 19 12 5 21 5 3\"></polygon>\n                </svg>\n                Ir a la presentacion\n                <svg class=\"btn-arrow\" width=\"14\" height=\"14\" viewBox=\"0 0 24 24\" fill=\"none\" stroke=\"currentColor\" stroke-width=\"2\" stroke-linecap=\"round\" stroke-linejoin=\"round\" aria-hidden=\"true\">\n                  <path d=\"M5 12h14\"></path>\n                  <path d=\"m12 5 7 7-7 7\"></path>\n                </svg>\n              </a>\n            </header>\n\n            <hr class=\"separator\">\n\n            <!-- Section -->\n            <div>\n              <h2 class=\"section-label\">Audio</h2>\n              <p class=\"section-desc\">Configura los filtros de audio del sistema de presentaciones.</p>\n            </div>\n\n            <!-- Settings -->\n            <div class=\"settings-list\">\n              <!-- Volume Control -->\n              <div class=\"volume-card ";

/// Page text between the volume card's state class and the volume level.
pub const PAGE_1: &'static str = "\">\n                <div class=\"volume-icon-box\">\n                  <svg width=\"18\" height=\"18\" viewBox=\"0 0 24 24\" fill=\"none\" stroke=\"currentColor\" stroke-width=\"1.5\" stroke-linecap=\"round\" stroke-linejoin=\"round\" aria-hidden=\"true\">\n                    <polygon points=\"11 5 6 9 2 9 2 15 6 15 11 19 11 5\"></polygon>\n                    <path d=\"M15.54 8.46a5 5 0 0 1 0 7.07\"></path>\n                    <path d=\"M19.07 4.93a10 10 0 0 1 0 14.14\"></path>\n                  </svg>\n                </div>\n                <div class=\"volume-text\">\n                  <span class=\"volume-title\">Volumen</span>\n                  <span class=\"volume-level\">";

/// Page text between the volume level and its label.
pub const PAGE_2: &'static str = "% - ";

/// Page text between the volume label and the first volume button's state.
pub const PAGE_3: &'static str = "</span>\n                </div>\n                <div class=\"volume-controls\">\n                  <form method=\"POST\" action=\"/settings/volume\" style=\"display:inline;\">\n                    <input type=\"hidden\" name=\"direction\" value=\"down\">\n                    <button type=\"submit\" class=\"volume-btn\" aria-label=\"Bajar volumen\" ";

/// Page text between the two volume buttons' states.
pub const PAGE_4: &'static str = ">-</button>\n                  </form>\n                  <form method=\"POST\" action=\"/settings/volume\" style=\"display:inline;\">\n                    <input type=\"hidden\" name=\"direction\" value=\"up\">\n                    <button type=\"submit\" class=\"volume-btn\" aria-label=\"Subir volumen\" ";

/// Page text between the second volume button's state and the limiter's pressed state.
pub const PAGE_5: &'static str = ">+</button>\n                  </form>\n                </div>\n              </div>\n\n              <button type=\"button\" class=\"limiter-card\" id=\"limiterCard\" aria-pressed=\"";

/// Page text between the limiter's pressed state and the toggle's class.
pub const PAGE_6: &'static str = "\">\n                <div class=\"limiter-icon-box\">\n                  <svg width=\"18\" height=\"18\" viewBox=\"0 0 24 24\" fill=\"none\" stroke=\"currentColor\" stroke-width=\"1.5\" stroke-linecap=\"round\" stroke-linejoin=\"round\" aria-hidden=\"true\">\n                    <path d=\"M2 16V8a2 2 0 0 1 2-2h2.93a2 2 0 0 0 1.66-.9l.82-1.2A2 2 0 0 1 11.07 3h1.86a2 2 0 0 1 1.66.9l.82 1.2A2 2 0 0 0 17.07 6H20a2 2 0 0 1 2 2v8\"></path>\n                    <path d=\"M2 17h20\"></path>\n                    <path d=\"M6 21h12\"></path>\n                    <circle cx=\"12\" cy=\"11\" r=\"3\"></circle>\n                  </svg>\n                </div>\n                <div class=\"limiter-text\">\n                  <span class=\"limiter-title\">Limiter</span>\n                  <span class=\"limiter-desc\">Limita los picos de audio para proteger los altavoces</span>\n                </div>\n                <div class=\"toggle ";

/// Page text between the toggle's class and the checkbox state.
pub const PAGE_7: &'static str = "\" id=\"limiterToggle\" aria-label=\"Activar limiter de audio\">\n                  <div class=\"toggle-knob\"></div>\n                </div>\n              </button>\n            </div>\n\n            <!-- Hidden form for submission -->\n            <form method=\"POST\" action=\"/settings/limiter\" id=\"limiterForm\" style=\"display:none;\">\n              <input type=\"checkbox\" name=\"enable\" ";

/// Page text after the checkbox state.
pub const PAGE_8: &'static str = " id=\"limiterCheckbox\">\n            </form>\n          </div>\n\n          <script>\n            (function () {\n              var card = document.getElementById('limiterCard');\n              var toggle = document.getElementById('limiterToggle');\n              var form = document.getElementById('limiterForm');\n              var checkbox = document.getElementById('limiterCheckbox');\n              var enabled = checkbox.checked;\n\n              card.addEventListener('click', function () {\n                enabled = !enabled;\n                toggle.classList.toggle('active', enabled);\n                card.setAttribute('aria-pressed', String(enabled));\n                checkbox.checked = enabled;\n                card.disabled = true;\n                form.submit();\n              });\n              })();\n          </script>\n        </body>\n        </html>";

/// `"disabled"` when no volume control is available.
pub open spec fn volume_disabled(volume: Option<u8>) -> Seq<char> {
    if volume is None {
        "disabled"@
    } else {
        ""@
    }
}

/// The label under the volume level.
pub open spec fn volume_label(volume: Option<u8>) -> Seq<char> {
    if volume is Some {
        "Nivel de salida de audio"@
    } else {
        "Control de volumen no disponible"@
    }
}

/// The dashboard page for the limiter state and the current volume
/// (`None` when no volume control is available).
pub open spec fn dashboard_page(limiter_on: bool, volume: Option<u8>) -> Seq<char> {
    PAGE_0@ + volume_disabled(volume) + PAGE_1@ + decimal(volume.unwrap_or(0) as nat) + PAGE_2@
        + volume_label(volume) + PAGE_3@ + volume_disabled(volume) + PAGE_4@ + volume_disabled(
        volume,
    ) + PAGE_5@ + (if limiter_on {
        "true"@
    } else {
        "false"@
    }) + PAGE_6@ + (if limiter_on {
        "active"@
    } else {
        ""@
    }) + PAGE_7@ + (if limiter_on {
        "checked"@
    } else {
        ""@
    }) + PAGE_8@
}

fn push_volume_disabled(out: &mut String, volume: Option<u8>)
    ensures
        final(out)@ == old(out)@ + volume_disabled(volume),
{
    if volume.is_none() {
        push_str(out, "disabled");
    } else {
        push_str(out, "");
    }
}

/// The dashboard page, given the limiter state and the current volume in
/// percent (`None` when no volume control is available).
pub fn main_dashboard(limiter_on: bool, volume: Option<u8>) -> (r: String)
    ensures
        r@ == dashboard_page(limiter_on, volume),
{
    let mut s = String::new();
    push_str(&mut s, PAGE_0);
    push_volume_disabled(&mut s, volume);
    push_str(&mut s, PAGE_1);
    let level = match volume {
        Some(v) => v,
        None => 0,
    };
    let d = decimal_string(level as u64);
    push_str(&mut s, d.as_str());
    push_str(&mut s, PAGE_2);
    if volume.is_some() {
        push_str(&mut s, "Nivel de salida de audio");
    } else {
        push_str(&mut s, "Control de volumen no disponible");
    }
    push_str(&mut s, PAGE_3);
    push_volume_disabled(&mut s, volume);
    push_str(&mut s, PAGE_4);
    push_volume_disabled(&mut s, volume);
    push_str(&mut s, PAGE_5);
    push_str(&mut s, if limiter_on { "true" } else { "false" });
    push_str(&mut s, PAGE_6);
    push_str(&mut s, if limiter_on { "active" } else { "" });
    push_str(&mut s, PAGE_7);
    push_str(&mut s, if limiter_on { "checked" } else { "" });
    push_str(&mut s, PAGE_8);
    s
}

} // verus!
