//! The JavaScript pass: the runtime and one statement for each binding. The
//! generated code holds no `eval` and builds no function from text.

use vstd::prelude::*;
use vstd::string::*;
use crate::codegen::expressions::contains_name;
use crate::codegen::{
    Binding, binding_views, BindingView, CodegenError, CompilationContext, ContextView, field_views,
};
use crate::text::{join, join_strings, string_views};

verus! {

/// The reactive runtime that every generated program starts with: state
/// whose writes notify effects in a microtask, and the four kinds of binding.
pub const RUNTIME: &'static str = r#"const hrml = (() => {
  const _effects = [];
  let _queued = false;
  function _flush() {
    _queued = false;
    _effects.forEach(fn => fn());
  }
  function _notify() {
    if (!_queued) {
      _queued = true;
      queueMicrotask(_flush);
    }
  }
  function state(init) {
    return new Proxy(init, {
      set(target, key, value) {
        if (target[key] === value) return true;
        target[key] = value;
        _notify();
        return true;
      }
    });
  }
  function effect(fn) { _effects.push(fn); fn(); }
  function text(id, fn) {
    effect(() => {
      const el = document.getElementById(id);
      if (el) el.textContent = fn();
    });
  }
  function show(id, fn) {
    effect(() => {
      const el = document.getElementById(id);
      if (el) el.style.display = fn() ? '' : 'none';
    });
  }
  function model(id, s, key) {
    const el = document.getElementById(id);
    if (!el) return;
    el.addEventListener('input', e => { s[key] = e.target.value; });
    effect(() => { if (el.value !== String(s[key])) el.value = s[key]; });
  }
  function on(id, event, handler) {
    const el = document.getElementById(id);
    if (el) el.addEventListener(event, handler);
  }
  return { state, effect, text, show, model, on };
})();"#;

/// `name: value`, as it stands in the state object.
pub open spec fn field_js(field: (Seq<char>, Seq<char>)) -> Seq<char> {
    field.0 + ": "@ + field.1
}

/// The entries of the state object, in the order of the fields.
#[verifier::opaque]
pub open spec fn fields_js(fields: Seq<(Seq<char>, Seq<char>)>) -> Seq<Seq<char>>
    decreases fields.len(),
{
    if fields.len() == 0 {
        Seq::empty()
    } else {
        fields_js(fields.drop_last()).push(field_js(fields.last()))
    }
}

/// The statement that creates the state object; nothing without fields.
pub open spec fn state_js(fields: Seq<(Seq<char>, Seq<char>)>) -> Seq<char> {
    if fields.len() == 0 {
        Seq::empty()
    } else {
        "  const _s = hrml.state({ "@ + join(fields_js(fields), ", "@) + " });\n"@
    }
}

/// The statement of one binding.
pub open spec fn binding_js(binding: BindingView) -> Seq<char> {
    match binding {
        BindingView::Text { id, template } => "  hrml.text('"@ + id + "', () => `"@ + template
            + "`);\n"@,
        BindingView::Event { id, event, handler, modifiers } => if modifiers.contains(
            "prevent"@,
        ) {
            "  hrml.on('"@ + id + "', '"@ + event + "', (e) => { e.preventDefault(); "@ + handler
                + "; });\n"@
        } else {
            "  hrml.on('"@ + id + "', '"@ + event + "', () => { "@ + handler + "; });\n"@
        },
        BindingView::Show { id, expr } => "  hrml.show('"@ + id + "', () => "@ + expr + ");\n"@,
        BindingView::Model { id, field } => "  hrml.model('"@ + id + "', _s, '"@ + field
            + "');\n"@,
    }
}

/// The statements of the bindings, in the order of their collection.
#[verifier::opaque]
pub open spec fn bindings_js(bindings: Seq<BindingView>) -> Seq<char>
    decreases bindings.len(),
{
    if bindings.len() == 0 {
        Seq::empty()
    } else {
        bindings_js(bindings.drop_last()) + binding_js(bindings.last())
    }
}

/// The effect that keeps one computed field up to date.
pub open spec fn computed_js(field: (Seq<char>, Seq<char>)) -> Seq<char> {
    "  hrml.effect(() => { _s."@ + field.0 + " = "@ + field.1 + "; });\n"@
}

/// The effects of the computed fields, in the order of the fields.
#[verifier::opaque]
pub open spec fn computeds_js(fields: Seq<(Seq<char>, Seq<char>)>) -> Seq<char>
    decreases fields.len(),
{
    if fields.len() == 0 {
        Seq::empty()
    } else {
        computeds_js(fields.drop_last()) + computed_js(fields.last())
    }
}

/// The program for a context: nothing for a document without state fields
/// and without bindings; else the runtime, and in one function that is
/// called at once the state object, the bindings and the computed fields.
pub open spec fn script(ctx: ContextView) -> Seq<char> {
    if ctx.state_fields.len() == 0 && ctx.bindings.len() == 0 {
        Seq::empty()
    } else {
        RUNTIME@ + "\n\n"@ + "(function() {\n"@ + state_js(ctx.state_fields) + bindings_js(
            ctx.bindings,
        ) + computeds_js(ctx.computed_fields) + "})();\n"@
    }
}

fn binding_to_js(binding: &Binding) -> (r: String)
    ensures
        r@ == binding_js(binding@),
{
    let mut r = String::new();
    match binding {
        Binding::Text { id, template } => {
            r.append("  hrml.text('");
            r.append(id.as_str());
            r.append("', () => `");
            r.append(template.as_str());
            r.append("`);\n");
        },
        Binding::Event { id, event, handler, modifiers } => {
            let prevent = String::from_str("prevent");
            r.append("  hrml.on('");
            r.append(id.as_str());
            r.append("', '");
            r.append(event.as_str());
            if contains_name(modifiers.as_slice(), &prevent) {
                r.append("', (e) => { e.preventDefault(); ");
            } else {
                r.append("', () => { ");
            }
            r.append(handler.as_str());
            r.append("; });\n");
        },
        Binding::Show { id, expr } => {
            r.append("  hrml.show('");
            r.append(id.as_str());
            r.append("', () => ");
            r.append(expr.as_str());
            r.append(");\n");
        },
        Binding::Model { id, field } => {
            r.append("  hrml.model('");
            r.append(id.as_str());
            r.append("', _s, '");
            r.append(field.as_str());
            r.append("');\n");
        },
    }
    assert(r@ =~= binding_js(binding@));
    r
}

fn state_to_js(fields: &Vec<(String, String)>) -> (r: String)
    ensures
        r@ == state_js(field_views(fields@)),
{
    if fields.len() == 0 {
        return String::new();
    }
    let mut parts: Vec<String> = Vec::new();
    let mut i: usize = 0;
    let ghost all = field_views(fields@);
    proof {
        reveal(fields_js);
        assert(string_views(parts@) =~= Seq::empty());
        assert(all.take(0) =~= Seq::empty());
    }
    while i < fields.len()
        invariant
            i <= fields@.len(),
            all == field_views(fields@),
            string_views(parts@) == fields_js(all.take(i as int)),
        decreases fields@.len() - i,
    {
        let ghost before = string_views(parts@);
        let mut part = fields[i].0.clone();
        part.append(": ");
        part.append(fields[i].1.as_str());
        parts.push(part);
        i += 1;
        proof {
            reveal(fields_js);
            assert(all.take(i as int).drop_last() =~= all.take(i - 1));
            assert(all.take(i as int).last() == all[i - 1]);
            assert(string_views(parts@) =~= before.push(part@));
        }
    }
    assert(all.take(i as int) =~= all);
    let mut r = String::from_str("  const _s = hrml.state({ ");
    r.append(join_strings(&parts, ", ").as_str());
    r.append(" });\n");
    r
}

fn bindings_to_js(bindings: &Vec<Binding>) -> (r: String)
    ensures
        r@ == bindings_js(binding_views(bindings@)),
{
    let mut r = String::new();
    let mut i: usize = 0;
    let ghost all = binding_views(bindings@);
    proof {
        reveal(bindings_js);
        assert(all.take(0) =~= Seq::empty());
    }
    while i < bindings.len()
        invariant
            i <= bindings@.len(),
            all == binding_views(bindings@),
            r@ == bindings_js(all.take(i as int)),
        decreases bindings@.len() - i,
    {
        proof {
            reveal(bindings_js);
            assert(all.take(i + 1).drop_last() =~= all.take(i as int));
            assert(all.take(i + 1).last() == bindings@[i as int]@);
        }
        r.append(binding_to_js(&bindings[i]).as_str());
        i += 1;
    }
    assert(all.take(i as int) =~= all);
    r
}

fn computeds_to_js(fields: &Vec<(String, String)>) -> (r: String)
    ensures
        r@ == computeds_js(field_views(fields@)),
{
    let mut r = String::new();
    let mut i: usize = 0;
    let ghost all = field_views(fields@);
    proof {
        reveal(computeds_js);
        assert(all.take(0) =~= Seq::empty());
    }
    while i < fields.len()
        invariant
            i <= fields@.len(),
            all == field_views(fields@),
            r@ == computeds_js(all.take(i as int)),
        decreases fields@.len() - i,
    {
        proof {
            reveal(computeds_js);
            assert(all.take(i + 1).drop_last() =~= all.take(i as int));
            assert(all.take(i + 1).last() == all[i as int]);
        }
        let ghost before = r@;
        r.append("  hrml.effect(() => { _s.");
        r.append(fields[i].0.as_str());
        r.append(" = ");
        r.append(fields[i].1.as_str());
        r.append("; });\n");
        assert(r@ =~= before + computed_js(all[i as int]));
        i += 1;
    }
    assert(all.take(i as int) =~= all);
    r
}

/// Writes the program for `ctx`. A context without state fields and without
/// bindings gives the empty text.
pub fn generate(ctx: &CompilationContext) -> (r: Result<String, CodegenError>)
    ensures
        r matches Ok(js) && js@ == script(ctx@),
        ctx@.state_fields.len() == 0 && ctx@.bindings.len() == 0 ==> (r matches Ok(js) && js@
            == Seq::<char>::empty()),
{
    if ctx.state_fields.len() == 0 && ctx.bindings.len() == 0 {
        return Ok(String::new());
    }
    let mut js = String::from_str(RUNTIME);
    js.append("\n\n");
    js.append("(function() {\n");
    js.append(state_to_js(&ctx.state_fields).as_str());
    js.append(bindings_to_js(&ctx.bindings).as_str());
    js.append(computeds_to_js(&ctx.computed_fields).as_str());
    js.append("})();\n");
    Ok(js)
}

} // verus!
