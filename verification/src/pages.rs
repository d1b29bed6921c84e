//! The pages, scripts and style sheets of the shell.

use vstd::prelude::*;

verus! {

/// What the empty address bar says.
pub const OMNIBOX_PLACEHOLDER: &'static str = "Введите адрес или выполните поиск";

/// The title of a new tab.
pub const NEWTAB_TITLE: &'static str = "Новая вкладка";

/// The page that answers a message.
pub const IPC_ACK_HTML: &'static str = r#"<!doctype html><html><head><meta charset="utf-8"></head><body></body></html>"#;

/// What keeps the toolbar from behaving like a web page.
pub const TOOLBAR_LOCK_SCRIPT: &'static str = r#"
  document.addEventListener('contextmenu', e => e.preventDefault(), true);
  document.addEventListener('dragstart', e => e.preventDefault(), true);
  document.addEventListener('click', e => {
    const link = e.target.closest('a[href]');
    if (link) { e.preventDefault(); e.stopPropagation(); }
  }, true);
  document.addEventListener('keydown', e => {
    const k = e.key.toLowerCase();
    if (e.key === 'F5' || ((e.metaKey || e.ctrlKey) && k === 'r')) {
      e.preventDefault();
      e.stopPropagation();
    }
    if (e.key === 'F12' || (e.ctrlKey && e.shiftKey && k === 'i') || (e.metaKey && e.altKey && k === 'i')) {
      e.preventDefault();
      e.stopPropagation();
    }
  }, true);
"#;

/// Keyboard shortcuts inside a page.
pub const CONTENT_SHORTCUT_SCRIPT: &'static str = r#"
  function postDevtools() {
    try {
      if (window.chrome && window.chrome.webview && window.chrome.webview.postMessage) {
        window.chrome.webview.postMessage('toggle_devtools');
      } else if (window.ipc && window.ipc.postMessage) {
        window.ipc.postMessage('toggle_devtools');
      }
    } catch (e) {}
  }
  document.addEventListener('keydown', e => {
    const k = e.key.toLowerCase();
    if (e.key === 'F12') {
      e.preventDefault();
      e.stopPropagation();
      postDevtools();
      return;
    }
    if (e.ctrlKey && e.shiftKey && k === 'i') {
      e.preventDefault();
      e.stopPropagation();
      postDevtools();
      return;
    }
    if (e.metaKey && e.altKey && k === 'i') {
      e.preventDefault();
      e.stopPropagation();
      postDevtools();
    }
  }, true);
"#;

/// The context menu inside a page on Windows.
pub const WIN_CONTENT_CONTEXT_SCRIPT: &'static str = r#"
  document.addEventListener('contextmenu', function(e) {
    var old = document.getElementById('__plum_ctx');
    if (old) old.remove();
    var menu = document.createElement('div');
    menu.id = '__plum_ctx';
    menu.style.cssText = 'position:fixed;left:' + e.clientX + 'px;top:' + e.clientY + 'px;background:#2b2b2b;color:#eee;border:1px solid #444;border-radius:6px;padding:4px 0;z-index:2147483647;font:13px system-ui,sans-serif;min-width:190px;box-shadow:0 8px 24px rgba(0,0,0,.35)';
    function addItem(label, fn) {
      var el = document.createElement('div');
      el.textContent = label;
      el.style.cssText = 'padding:8px 14px;cursor:default';
      el.onmouseenter = function(){ el.style.background = '#3d3d3d'; };
      el.onmouseleave = function(){ el.style.background = 'transparent'; };
      el.onmousedown = function(ev) {
        ev.preventDefault();
        ev.stopPropagation();
        menu.remove();
        fn();
      };
      menu.appendChild(el);
    }
    addItem('Назад', function(){ history.back(); });
    addItem('Обновить', function(){ location.reload(); });
    addItem('Просмотреть код', function(){ postDevtools(); });
    document.documentElement.appendChild(menu);
    e.preventDefault();
    e.stopPropagation();
    setTimeout(function() {
      document.addEventListener('mousedown', function close(ev) {
        if (!menu.contains(ev.target)) menu.remove();
        document.removeEventListener('mousedown', close, true);
      }, true);
    }, 0);
  }, true);
"#;

/// The new-tab page.
pub const NEWTAB_HTML: &'static str = r#"<!doctype html>
<html lang="ru">
<head>
  <meta charset="utf-8"/>
  <meta name="viewport" content="width=device-width,initial-scale=1"/>
  <title>Новая вкладка</title>
  <style>
    :root { --bg:#0f1115; --fg:#e8eaed; --mut:#9aa0a6; --accent:#8ab4f8; }
    * { box-sizing:border-box; }
    html, body { margin:0; height:100%; }
    body {
      display:flex; flex-direction:column; align-items:center; justify-content:center;
      background:radial-gradient(1200px 600px at 50% 18%, #1b2333, var(--bg));
      color:var(--fg); font:16px/1.4 system-ui, "Segoe UI", Arial, sans-serif;
      padding:24px;
    }
    .brand { font-size:42px; font-weight:700; letter-spacing:-0.02em; margin-bottom:28px; }
    .search-form { width:min(560px, 92vw); }
    .search-box {
      display:flex; align-items:center; gap:10px;
      background:rgba(255,255,255,0.06); border:1px solid rgba(255,255,255,0.1);
      border-radius:28px; padding:6px 8px 6px 18px;
      box-shadow:0 8px 32px rgba(0,0,0,0.25);
    }
    .search-box:focus-within { border-color:rgba(138,180,248,0.55); }
    .search-box input {
      flex:1; border:none; outline:none; background:transparent;
      color:var(--fg); font:inherit; padding:10px 0;
    }
    .search-box input::placeholder { color:var(--mut); }
    .search-box button {
      border:none; border-radius:20px; background:var(--accent); color:#0f1115;
      font:inherit; font-weight:600; padding:10px 18px; cursor:pointer;
    }
    .search-box button:hover { filter:brightness(1.05); }
    .hint { margin-top:18px; color:var(--mut); font-size:14px; text-align:center; }
  </style>
</head>
<body>
  <div class="brand">PlumBrowser</div>
  <form class="search-form" id="search-form">
    <div class="search-box">
      <input id="search" type="search" autocomplete="off" spellcheck="false"
        placeholder="Введите адрес или выполните поиск" autofocus />
      <button type="submit">Перейти</button>
    </div>
  </form>
  <div class="hint">Или используйте строку адреса вверху окна</div>
  <script>
    function post(msg) {
      try {
        if (window.chrome && window.chrome.webview && window.chrome.webview.postMessage) {
          window.chrome.webview.postMessage(msg);
          return;
        }
      } catch (e) {}
      try {
        if (window.ipc && window.ipc.postMessage) {
          window.ipc.postMessage(msg);
        }
      } catch (e2) {}
    }
    function navigate(input) {
      var q = (input || '').trim();
      if (!q) return;
      post('load:' + q);
    }
    document.getElementById('search-form').addEventListener('submit', function(e) {
      e.preventDefault();
      navigate(document.getElementById('search').value);
    });
  </script>
</body>
</html>
"#;

/// The behaviour of the toolbar where it runs scripts.
pub const TOOLBAR_SCRIPT: &'static str = r#"
    function post(msg) {
      try {
        if (window.ipc && window.ipc.postMessage) {
          window.ipc.postMessage(msg);
          return;
        }
      } catch (e) {}
      try {
        if (window.chrome && window.chrome.webview && window.chrome.webview.postMessage) {
          window.chrome.webview.postMessage(msg);
          return;
        }
      } catch (e2) {}
      try {
        window.location.replace('plum://ipc/' + encodeURIComponent(msg));
      } catch (e3) {}
    }

    function browserIconDataUrl() {
      return window.__plumBrowserIcon || svgFallbackDataUrl();
    }

    function svgFallbackDataUrl() {
      return browserIconDataUrl();
    }

    function faviconUrl(pageUrl) {
      if (!pageUrl || pageUrl.includes('plum.newtab') || pageUrl.startsWith('plum://') || pageUrl.startsWith('data:')) {
        return browserIconDataUrl();
      }
      try {
        const u = new URL(pageUrl);
        return u.origin + '/favicon.ico';
      } catch (e) {
        return browserIconDataUrl();
      }
    }

    document.addEventListener('selectstart', (e) => {
      if (!e.target.closest('input')) e.preventDefault();
    });
    document.addEventListener('mousedown', (e) => {
      if (e.detail > 1 && !e.target.closest('input')) e.preventDefault();
    });

    function bindBtn(id, fn) {
      const el = document.getElementById(id);
      if (el) el.addEventListener('click', fn);
    }

    function initToolbar() {
      const drag = document.getElementById('drag');
      if (drag) drag.addEventListener('pointerdown', () => post('win_drag'));

      bindBtn('min', () => post('win_min'));
      bindBtn('max', () => post('win_max_toggle'));
      bindBtn('close', () => post('win_close'));

      bindBtn('addtab-inline', () => post('new_tab:'));
      bindBtn('addtab-fixed', () => post('new_tab:'));

      const strip = document.getElementById('tab-strip');
      if (strip) {
        strip.addEventListener('wheel', (e) => {
          if (Math.abs(e.deltaY) > Math.abs(e.deltaX)) {
            strip.scrollLeft += e.deltaY;
            e.preventDefault();
          }
        }, { passive: false });
        if (typeof ResizeObserver !== 'undefined') {
          new ResizeObserver(() => layoutTabs()).observe(strip);
        }
      }

      bindBtn('back', () => post('nav_back'));
      bindBtn('forward', () => post('nav_forward'));
      bindBtn('reload', () => {
        const btn = document.getElementById('reload');
        const loading = btn && btn.dataset.loading === '1';
        post(loading ? 'nav_stop' : 'nav_reload');
      });
      bindBtn('devtools', () => post('nav_devtools'));

      const urlInput = document.getElementById('url');
      const go = document.getElementById('go');
      if (go && urlInput) {
        go.addEventListener('click', () => post('load:' + urlInput.value));
        urlInput.addEventListener('keydown', (e) => {
          if (e.key === 'Enter') post('load:' + e.target.value);
        });
        urlInput.addEventListener('blur', () => post('focus_content'));
      }
    }

    function bootToolbar() {
      initToolbar();
      if (window.__pendingState && typeof window.__setState === 'function') {
        const pending = window.__pendingState;
        window.__setState(pending[0], pending[1], pending[2], pending[3], pending[4] || false);
        delete window.__pendingState;
      }
    }

    const TAB_MIN = 32;
    const TAB_MAX = 220;
    const TAB_GAP = 8;

    function layoutTabs() {
      const strip = document.getElementById('tab-strip');
      if (!strip) return;
      requestAnimationFrame(() => {
        const tabs = [...strip.querySelectorAll('.tab')];
        const n = tabs.length;
        if (n === 0) return;

        const avail = strip.clientWidth;
        // WebView2 often reports 0 until the first real layout pass.
        if (avail < 8) {
          requestAnimationFrame(() => layoutTabs());
          return;
        }

        const gap = TAB_GAP;
        strip.classList.remove('scroll');

        const minTotal = n * TAB_MIN + Math.max(0, n - 1) * gap;
        if (minTotal > avail) {
          strip.classList.add('scroll');
          tabs.forEach(t => {
            t.style.flex = '0 0 ' + TAB_MIN + 'px';
            t.style.width = TAB_MIN + 'px';
            t.style.minWidth = TAB_MIN + 'px';
            t.style.maxWidth = TAB_MIN + 'px';
          });
          const active = strip.querySelector('.tab.active');
          if (active) active.scrollIntoView({ inline: 'nearest', block: 'nearest' });
          const addInline = document.getElementById('addtab-inline');
          const addFixed = document.getElementById('addtab-fixed');
          if (addInline) addInline.style.display = 'none';
          if (addFixed) addFixed.style.display = 'grid';
          return;
        }

        let width = Math.floor((avail - Math.max(0, n - 1) * gap) / n);
        width = Math.min(TAB_MAX, Math.max(TAB_MIN, width));
        tabs.forEach(t => {
          t.style.flex = '1 1 0';
          t.style.width = width + 'px';
          t.style.minWidth = TAB_MIN + 'px';
          t.style.maxWidth = TAB_MAX + 'px';
        });

        const addInline = document.getElementById('addtab-inline');
        const addFixed = document.getElementById('addtab-fixed');
        if (addInline) addInline.style.display = 'grid';
        if (addFixed) addFixed.style.display = 'none';
      });
    }

    window.addEventListener('resize', () => layoutTabs());

    window.__setState = function(tabTitles, tabUrls, current, url, loading) {
      const strip = document.getElementById('tab-strip');
      if (!strip) return;
      strip.innerHTML = '';

      tabTitles.forEach((title, i) => {
        const t = document.createElement('div');
        t.className = 'tab' + (i === current ? ' active' : '');
        t.onclick = () => post('switch_tab:' + i);

        const icon = document.createElement('img');
        icon.className = 'tab-icon';
        icon.src = faviconUrl(tabUrls[i] || '');
        icon.referrerPolicy = 'no-referrer';
        icon.loading = 'lazy';
        icon.decoding = 'async';
        icon.onerror = () => { icon.onerror = null; icon.src = browserIconDataUrl(); };

        const tt = document.createElement('div');
        tt.className = 'tab-title';
        tt.textContent = title;

        const x = document.createElement('div');
        x.className = 'tab-close';
        x.textContent = '×';
        x.onclick = (e) => { e.stopPropagation(); post('close_tab:' + i); };

        t.appendChild(icon);
        t.appendChild(tt);
        t.appendChild(x);
        strip.appendChild(t);
      });

      const urlEl = document.getElementById('url');
      if (urlEl) urlEl.value = url || '';
      const reloadBtn = document.getElementById('reload');
      if (reloadBtn) {
        reloadBtn.dataset.loading = loading ? '1' : '0';
        reloadBtn.textContent = loading ? '✕' : '↻';
        reloadBtn.title = loading ? 'Остановить загрузку' : 'Обновить';
      }
      layoutTabs();
    };

    window.__setTabTitle = function(index, title) {
      const tab = document.querySelectorAll('#tab-strip .tab')[index];
      if (tab) {
        const el = tab.querySelector('.tab-title');
        if (el) el.textContent = title;
      }
      layoutTabs();
    };

    if (document.readyState === 'loading') {
      document.addEventListener('DOMContentLoaded', bootToolbar);
    } else {
      queueMicrotask(bootToolbar);
    }
"#;

/// The look of the row of tabs.
pub const TAB_BAR_CSS: &'static str = r#"
    body { user-select:none; -webkit-user-select:none; }
    input { user-select:text; -webkit-user-select:text; }
    .tabs-bar { display:flex; align-items:center; gap:8px; height:32px; min-height:32px; width:100%; }
    .tab-strip {
      display:flex; gap:8px; align-items:center;
      flex:1 1 auto; min-width:48px;
      height:32px;
      overflow-x:auto; overflow-y:hidden;
      scrollbar-gutter: stable both-edges;
      scrollbar-width:thin; scrollbar-color:#5f6368 transparent;
    }
    .tab-strip::-webkit-scrollbar { height:6px; }
    .tab-strip::-webkit-scrollbar-thumb { background:#5f6368; border-radius:8px; }
    .tab-strip::-webkit-scrollbar-track { background:transparent; }
    .addtab {
      width:36px; height:32px; border-radius:12px; background:var(--b);
      display:grid; place-items:center; cursor:pointer; user-select:none;
      flex:0 0 auto; font-size:18px; line-height:1;
    }
    .addtab:hover { background:var(--b2); }
    .tab {
      position:relative;
      display:flex; align-items:center; gap:6px;
      height:32px; padding:0 34px 0 8px; border-radius:12px; background:var(--b);
      cursor:pointer; user-select:none; box-sizing:border-box;
    }
    .tab.active { background:var(--b2); }
    .tab-icon { flex:0 0 auto; width:16px; height:16px; opacity:0.95; display:block; border-radius:4px; }
    .tab-title {
      min-width:0; overflow:hidden; white-space:nowrap;
      text-overflow:ellipsis; flex:1 1 auto;
    }
    .tab-close {
      position:absolute; right:4px; top:4px;
      width:24px; height:24px; border-radius:10px;
      display:grid; place-items:center; color:var(--mut); font-weight:900;
      opacity:0; pointer-events:none;
    }
    .tab:hover .tab-close { opacity:1; pointer-events:auto; }
    .tab-close:hover { background:#2a2b2f; color:var(--fg); }
    .tab-strip.scroll .tab-title { display:none; }
    .tab-strip.scroll .tab { padding:0; width:32px; border-radius:10px; display:grid; place-items:center; }
    .tab-strip.scroll .tab-close { position:static; right:auto; top:auto; }
    .tab-strip.scroll .tab:hover .tab-icon { opacity:0; }
    .tab-strip.scroll .tab:hover .tab-close { opacity:1; pointer-events:auto; }
"#;

/// The look of the row of tabs where the window has no frame of its own.
pub const WINDOWS_TAB_BAR_CSS: &'static str = r#"
    .tabs-bar {
      display:grid;
      grid-template-columns:minmax(0,1fr) 36px;
      align-items:center;
      gap:8px;
      height:32px;
      min-height:32px;
      width:100%;
    }
    .tab-strip {
      grid-column:1;
      min-width:0;
      width:100%;
    }
    #addtab-inline { grid-column:2; }
    #addtab-fixed { grid-column:2; }
    .toolbar { position:relative; }
"#;

/// The layout of the row of tabs in a rendered toolbar.
pub const WINDOWS_TAB_LAYOUT_SCRIPT: &'static str = r#"
(function(){
  var TAB_MIN=32,TAB_MAX=220,TAB_GAP=8;
  function layoutTabs(){
    var strip=document.getElementById('tab-strip');
    if(!strip)return;
    var tabs=[].slice.call(strip.querySelectorAll('.tab'));
    var n=tabs.length;
    if(n===0)return;
    var avail=strip.clientWidth;
    if(avail<8){requestAnimationFrame(layoutTabs);return;}
    strip.classList.remove('scroll');
    var minTotal=n*TAB_MIN+Math.max(0,n-1)*TAB_GAP;
    if(minTotal>avail){
      strip.classList.add('scroll');
      tabs.forEach(function(t){
        t.style.flex='0 0 '+TAB_MIN+'px';
        t.style.width=TAB_MIN+'px';
        t.style.minWidth=TAB_MIN+'px';
        t.style.maxWidth=TAB_MIN+'px';
      });
      var active=strip.querySelector('.tab.active');
      if(active)active.scrollIntoView({inline:'nearest',block:'nearest'});
      return;
    }
    var width=Math.floor((avail-Math.max(0,n-1)*TAB_GAP)/n);
    width=Math.min(TAB_MAX,Math.max(TAB_MIN,width));
    tabs.forEach(function(t){
      t.style.flex='1 1 0';
      t.style.width=width+'px';
      t.style.minWidth=TAB_MIN+'px';
      t.style.maxWidth=TAB_MAX+'px';
    });
  }
  layoutTabs();
  window.addEventListener('resize',layoutTabs);
  var strip=document.getElementById('tab-strip');
  if(strip){
    strip.addEventListener('wheel',function(e){
      if(Math.abs(e.deltaY)>Math.abs(e.deltaX)){
        strip.scrollLeft+=e.deltaY;
        e.preventDefault();
      }
    },{passive:false});
  }
})();
"#;

/// The empty page of the docked developer tools.
pub const DEVTOOLS_PANEL_HTML: &'static str = r#"<!doctype html>
<html><head><meta charset="utf-8"/><style>
  html,body{margin:0;height:100%;background:#1e1e1e;overflow:hidden}
</style></head><body></body></html>"#;

/// The rendered toolbar, up to toolbar h.
pub const WIN_PAGE_TO_TOOLBAR_H: &'static str = r#"<!doctype html>
<html lang="ru">
<head>
  <meta charset="utf-8" />
  <meta name="viewport" content="width=device-width,initial-scale=1" />
  <style>
    :root {
      --bg:#202124; --fg:#e8eaed; --mut:#9aa0a6; --b:#303134; --b2:#3c4043; --danger:#5b2b2b;
      --toolbarH:"#;

/// The rendered toolbar, up to tab bar css.
pub const WIN_PAGE_TO_TAB_BAR_CSS: &'static str = r#"px; --titlebarH:44px;
    }
    * { box-sizing:border-box; }
    html, body { margin:0; padding:0; width:100%; height:100%; overflow:hidden; background:#202124; }
    body { background:var(--bg); color:var(--fg); font:14px/1.2 system-ui,"Segoe UI",Arial; }
    .chrome { height:var(--toolbarH); display:flex; flex-direction:column; }
    .titlebar {
      height:var(--titlebarH); display:flex; align-items:center; gap:10px;
      padding:0 12px; border-bottom:1px solid #2b2c2f;
      user-select:none; -webkit-user-select:none;
    }
    .drag { flex:1; height:100%; display:flex; align-items:center; color:var(--mut); font-weight:700; cursor:default; }
    .winbtns { display:flex; gap:8px; }
    .wbtn {
      width:40px; height:26px; border-radius:10px; background:var(--b);
      display:grid; place-items:center; cursor:pointer; user-select:none;
    }
    .wbtn:hover { background:var(--b2); }
    .wbtn.close { background:var(--danger); }
    .toolbar { flex:1; display:flex; flex-direction:column; gap:8px; padding:8px 12px 10px; min-height:0; overflow:visible; }
    .tabs-bar { flex-shrink:0; }
    "#;

/// The rendered toolbar, up to win drag.
pub const WIN_PAGE_TO_WIN_DRAG: &'static str = r#"
    .row { display:flex; gap:8px; align-items:center; }
    .navbtn {
      width:36px; height:36px; border-radius:12px; background:var(--b);
      display:grid; place-items:center; cursor:pointer; user-select:none;
      font-size:16px; flex:0 0 auto;
    }
    .navbtn:hover { background:var(--b2); }
    input {
      flex:1; min-width:200px; padding:10px 14px; border-radius:16px;
      border:1px solid #3c4043; outline:none; background:#111; color:var(--fg);
    }
    .go { padding:10px 14px; border-radius:16px; background:var(--b); cursor:pointer; user-select:none; flex:0 0 auto; }
    .go:hover { background:var(--b2); }
  </style>
</head>
<body>
  <div class="chrome">
    <div class="titlebar">
      <div class="drag" onpointerdown="window.location.replace('"#;

/// The rendered toolbar, up to version.
pub const WIN_PAGE_TO_VERSION: &'static str = r#"')">"#;

/// The rendered toolbar, up to win min.
pub const WIN_PAGE_TO_WIN_MIN: &'static str = r#"</div>
      <div class="winbtns">
        <div class="wbtn" title="Свернуть" onclick="window.location.replace('"#;

/// The rendered toolbar, up to win max.
pub const WIN_PAGE_TO_WIN_MAX: &'static str = r#"')">—</div>
        <div class="wbtn" title="Развернуть" onclick="window.location.replace('"#;

/// The rendered toolbar, up to win close.
pub const WIN_PAGE_TO_WIN_CLOSE: &'static str = r#"')">□</div>
        <div class="wbtn close" title="Закрыть" onclick="window.location.replace('"#;

/// The rendered toolbar, up to tabs html.
pub const WIN_PAGE_TO_TABS_HTML: &'static str = r#"')">×</div>
      </div>
    </div>
    <div class="toolbar">
      <div class="tabs-bar">
        <div class="tab-strip" id="tab-strip">"#;

/// The rendered toolbar, up to new tab.
pub const WIN_PAGE_TO_NEW_TAB: &'static str = r#"</div>
        <div class="addtab" title="Новая вкладка" onclick="window.location.replace('"#;

/// The rendered toolbar, up to nav back.
pub const WIN_PAGE_TO_NAV_BACK: &'static str = r#"')">+</div>
      </div>
      <div class="row">
        <div class="navbtn" title="Назад" onclick="window.location.replace('"#;

/// The rendered toolbar, up to nav forward.
pub const WIN_PAGE_TO_NAV_FORWARD: &'static str = r#"')">←</div>
        <div class="navbtn" title="Вперёд" onclick="window.location.replace('"#;

/// The rendered toolbar, up to nav reload title.
pub const WIN_PAGE_TO_NAV_RELOAD_TITLE: &'static str = r#"')">→</div>
        <div class="navbtn" title=""#;

/// The rendered toolbar, up to nav reload action.
pub const WIN_PAGE_TO_NAV_RELOAD_ACTION: &'static str = r#"" onclick="window.location.replace('"#;

/// The rendered toolbar, up to nav reload label.
pub const WIN_PAGE_TO_NAV_RELOAD_LABEL: &'static str = r#"')">"#;

/// The rendered toolbar, up to nav devtools.
pub const WIN_PAGE_TO_NAV_DEVTOOLS: &'static str = r#"</div>
        <div class="navbtn" title="Инструменты разработчика (F12)" onclick="window.location.replace('"#;

/// The rendered toolbar, up to cur url attr.
pub const WIN_PAGE_TO_CUR_URL_ATTR: &'static str = r#"')">&#123; &#125;</div>
        <input id="url" value=""#;

/// The rendered toolbar, up to omnibox placeholder.
pub const WIN_PAGE_TO_OMNIBOX_PLACEHOLDER: &'static str = r#"" placeholder=""#;

/// The rendered toolbar, up to tab layout script.
pub const WIN_PAGE_TO_TAB_LAYOUT_SCRIPT: &'static str = r#"" autocomplete="off" spellcheck="false"
          onkeydown="if(event.key==='Enter')window.location.replace('plum://ipc/load:'+encodeURIComponent(this.value))" />
        <div class="go" onclick="window.location.replace('plum://ipc/load:'+encodeURIComponent(document.getElementById('url').value))">Перейти</div>
      </div>
    </div>
  </div>
  <script>"#;

/// The rendered toolbar, the end.
pub const WIN_PAGE_END: &'static str = r#"</script>
</body>
</html>"#;

/// The toolbar under a system title bar, up to toolbar h.
pub const MAC_PAGE_TO_TOOLBAR_H: &'static str = r#"<!doctype html>
<html lang="ru">
<head>
  <meta charset="utf-8" />
  <meta name="viewport" content="width=device-width,initial-scale=1" />
  <style>
    :root {
      --bg:#202124; --fg:#e8eaed; --mut:#9aa0a6; --b:#303134; --b2:#3c4043;
      --toolbarH:"#;

/// The toolbar under a system title bar, up to tab bar css.
pub const MAC_PAGE_TO_TAB_BAR_CSS: &'static str = r#"px;
    }
    * { box-sizing:border-box; }
    html, body { margin:0; padding:0; width:100%; height:100%; overflow:hidden; background:#202124; }
    body { background:var(--bg); color:var(--fg); font:14px/1.2 system-ui,"Segoe UI",Arial; }
    .chrome { height:var(--toolbarH); display:flex; flex-direction:column; }
    .tabs-wrap { padding:28px 12px 0; -webkit-app-region:drag; }
    "#;

/// The toolbar under a system title bar, up to omnibox placeholder.
pub const MAC_PAGE_TO_OMNIBOX_PLACEHOLDER: &'static str = r#"
    .tabs-bar { -webkit-app-region:no-drag; }
    .addtab, .tab, .navbtn, input, .go { -webkit-app-region:no-drag; }
    .nav-row { display:flex; gap:8px; align-items:center; padding:8px 12px 10px; }
    .navbtn {
      width:36px; height:36px; border-radius:12px; background:var(--b);
      display:grid; place-items:center; cursor:pointer; user-select:none;
      font-size:16px; flex:0 0 auto;
    }
    .navbtn:hover { background:var(--b2); }
    input {
      flex:1; min-width:200px; padding:10px 14px; border-radius:16px;
      border:1px solid #3c4043; outline:none; background:#111; color:var(--fg);
    }
    .go {
      padding:10px 14px; border-radius:16px; background:var(--b);
      cursor:pointer; user-select:none; flex:0 0 auto;
    }
    .go:hover { background:var(--b2); }
  </style>
</head>
<body>
  <div class="chrome">
    <div class="tabs-wrap">
      <div class="tabs-bar">
        <div class="tab-strip" id="tab-strip"></div>
        <div class="addtab" id="addtab-inline" title="Новая вкладка">+</div>
        <div class="addtab" id="addtab-fixed" title="Новая вкладка" style="display:none">+</div>
      </div>
    </div>
    <div class="nav-row">
      <div class="navbtn" id="back" title="Назад">←</div>
      <div class="navbtn" id="forward" title="Вперёд">→</div>
      <div class="navbtn" id="reload" title="Обновить">↻</div>
      <div class="navbtn" id="devtools" title="Инструменты разработчика (F12)">&#123; &#125;</div>
      <input id="url" placeholder=""#;

/// The toolbar under a system title bar, up to browser icon.
pub const MAC_PAGE_TO_BROWSER_ICON: &'static str = r#"" autocomplete="off" spellcheck="false" />
      <div class="go" id="go">Перейти</div>
    </div>
  </div>
  <script>window.__plumBrowserIcon="#;

/// The toolbar under a system title bar, up to script.
pub const MAC_PAGE_TO_SCRIPT: &'static str = r#";</script>
  <script>"#;

/// The toolbar under a system title bar, the end.
pub const MAC_PAGE_END: &'static str = r#"</script>
</body>
</html>"#;

/// The toolbar of a window without a frame, up to toolbar h.
pub const BAR_PAGE_TO_TOOLBAR_H: &'static str = r#"<!doctype html>
<html lang="ru">
<head>
  <meta charset="utf-8" />
  <meta name="viewport" content="width=device-width,initial-scale=1" />
  <style>
    :root {
      --bg:#202124; --fg:#e8eaed; --mut:#9aa0a6; --b:#303134; --b2:#3c4043; --danger:#5b2b2b;
      --toolbarH:"#;

/// The toolbar of a window without a frame, up to tab bar css.
pub const BAR_PAGE_TO_TAB_BAR_CSS: &'static str = r#"px; --titlebarH:44px;
    }
    * { box-sizing:border-box; }
    html, body { margin:0; padding:0; width:100%; height:100%; overflow:hidden; background:#202124; }
    body { background:var(--bg); color:var(--fg); font:14px/1.2 system-ui,"Segoe UI",Arial; }
    .chrome { height:var(--toolbarH); display:flex; flex-direction:column; }
    .titlebar {
      height:var(--titlebarH); display:flex; align-items:center; gap:10px;
      padding:0 12px; border-bottom:1px solid #2b2c2f;
      user-select:none; -webkit-user-select:none;
    }
    .drag { flex:1; height:100%; display:flex; align-items:center; color:var(--mut); font-weight:700; cursor:default; }
    .winbtns { display:flex; gap:8px; }
    .wbtn {
      width:40px; height:26px; border-radius:10px; background:var(--b);
      display:grid; place-items:center; cursor:pointer; user-select:none;
    }
    .wbtn:hover { background:var(--b2); }
    .wbtn.close { background:var(--danger); }
    .toolbar { flex:1; display:flex; flex-direction:column; gap:8px; padding:8px 12px 10px; min-height:0; overflow:visible; }
    .tabs-bar { flex-shrink:0; }
    "#;

/// The toolbar of a window without a frame, up to version.
pub const BAR_PAGE_TO_VERSION: &'static str = r#"
    .row { display:flex; gap:8px; align-items:center; }
    .navbtn {
      width:36px; height:36px; border-radius:12px; background:var(--b);
      display:grid; place-items:center; cursor:pointer; user-select:none;
      font-size:16px; flex:0 0 auto;
    }
    .navbtn:hover { background:var(--b2); }
    input {
      flex:1; min-width:200px; padding:10px 14px; border-radius:16px;
      border:1px solid #3c4043; outline:none; background:#111; color:var(--fg);
    }
    .go { padding:10px 14px; border-radius:16px; background:var(--b); cursor:pointer; user-select:none; flex:0 0 auto; }
    .go:hover { background:var(--b2); }
  </style>
</head>
<body>
  <div class="chrome">
    <div class="titlebar">
      <div class="drag" id="drag">"#;

/// The toolbar of a window without a frame, up to omnibox placeholder.
pub const BAR_PAGE_TO_OMNIBOX_PLACEHOLDER: &'static str = r#"</div>
      <div class="winbtns">
        <div class="wbtn" id="min" title="Свернуть">—</div>
        <div class="wbtn" id="max" title="Развернуть">□</div>
        <div class="wbtn close" id="close" title="Закрыть">×</div>
      </div>
    </div>
    <div class="toolbar">
      <div class="tabs-bar">
        <div class="tab-strip" id="tab-strip"></div>
        <div class="addtab" id="addtab-inline" title="Новая вкладка">+</div>
        <div class="addtab" id="addtab-fixed" title="Новая вкладка" style="display:none">+</div>
      </div>
      <div class="row">
        <div class="navbtn" id="back" title="Назад">←</div>
        <div class="navbtn" id="forward" title="Вперёд">→</div>
        <div class="navbtn" id="reload" title="Обновить">↻</div>
        <div class="navbtn" id="devtools" title="Инструменты разработчика (F12)">&#123; &#125;</div>
        <input id="url" placeholder=""#;

/// The toolbar of a window without a frame, up to browser icon.
pub const BAR_PAGE_TO_BROWSER_ICON: &'static str = r#"" autocomplete="off" spellcheck="false" />
        <div class="go" id="go">Перейти</div>
      </div>
    </div>
  </div>
  <script>window.__plumBrowserIcon="#;

/// The toolbar of a window without a frame, up to script.
pub const BAR_PAGE_TO_SCRIPT: &'static str = r#";</script>
  <script>"#;

/// The toolbar of a window without a frame, the end.
pub const BAR_PAGE_END: &'static str = r#"</script>
</body>
</html>"#;

/// The script that hands the toolbar its state, up to titles.
pub const SYNC_TO_TITLES: &'static str = r#"(function(){
  var titles = "#;

/// The script that hands the toolbar its state, up to urls.
pub const SYNC_TO_URLS: &'static str = r#";
  var urls = "#;

/// The script that hands the toolbar its state, up to current.
pub const SYNC_TO_CURRENT: &'static str = r#";
  var cur = "#;

/// The script that hands the toolbar its state, up to cur url.
pub const SYNC_TO_CUR_URL: &'static str = r#";
  var url = "#;

/// The script that hands the toolbar its state, up to loading.
pub const SYNC_TO_LOADING: &'static str = r#";
  var loading = "#;

/// The script that hands the toolbar its state, the end.
pub const SYNC_END: &'static str = r#";
  function apply() {
    if (typeof window.__setState === 'function') {
      window.__setState(titles, urls, cur, url, loading);
      return true;
    }
    return false;
  }
  if (!apply()) {
    window.__pendingState = [titles, urls, cur, url, loading];
    var tries = 0;
    (function retry() {
      if (apply() || ++tries > 120) return;
      requestAnimationFrame(retry);
    })();
  }
})();"#;

} // verus!
