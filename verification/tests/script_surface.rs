//! The whole data flow of the bridge, wired as the host program wires
//! it: a script call goes through the registry, the extracted values
//! reach a handler, the handler touches the ledger and the handle
//! tables, and the handle later resolves through another call.
use shimbridge::AssetHandle;
use shimbridge::AssetLedger;
use shimbridge::CallError;
use shimbridge::Extracted;
use shimbridge::NativeKind;
use shimbridge::ParamKind;
use shimbridge::Registry;
use shimbridge::Signature;
use shimbridge::Value;

const LOAD_SOUND: u64 = 1;
const PLAY_SOUND: u64 = 2;

/// The host around the bridge: the ledger of one asset kind, the table
/// of sound handles the script holds references into, and a count of
/// the sounds actually played (the visible effect).
struct Host {
    registry: Registry,
    sounds: AssetLedger<u64>,
    sound_handles: Vec<AssetHandle<u64>>,
    plays: u32,
}

impl Host {
    fn new() -> Host {
        let mut registry = Registry::new();
        registry.register(
            "load_sound".to_owned(),
            Signature::Exact(vec![ParamKind::Text]),
            LOAD_SOUND,
        );
        registry.register(
            "play_sound".to_owned(),
            Signature::Exact(vec![ParamKind::Native(NativeKind::SoundHandle)]),
            PLAY_SOUND,
        );
        Host { registry, sounds: AssetLedger::new(), sound_handles: Vec::new(), plays: 0 }
    }

    /// One script call: validate at the boundary, then run the handler.
    fn call(&mut self, name: &str, args: Vec<Value>) -> Result<Value, CallError> {
        let name = name.to_owned();
        let (handler, extracted) = self.registry.dispatch(&name, &args)?;
        match handler {
            LOAD_SOUND => {
                let Some(Extracted::Text(path)) = extracted.into_iter().next() else {
                    unreachable!("the declared signature extracts one text");
                };
                assert!(self.sounds.requests_made() < u64::MAX);
                let handle = AssetHandle::request(&mut self.sounds, path);
                let index = self.sound_handles.len() as u64;
                self.sound_handles.push(handle);
                Ok(Value::Native(NativeKind::SoundHandle, index))
            }
            PLAY_SOUND => {
                let Some(Extracted::Obj(index)) = extracted.into_iter().next() else {
                    unreachable!("the declared signature extracts one object");
                };
                let handle = &mut self.sound_handles[index as usize];
                if handle.use_resource(&mut self.sounds).is_some() {
                    self.plays += 1;
                }
                Ok(Value::Unit)
            }
            _ => unreachable!("no other handler is registered"),
        }
    }

    /// The drain step of one frame.
    fn drain(&mut self) {
        while let Some((id, _path)) = self.sounds.pop_pending() {
            if self.sounds.id_issued(id) && !self.sounds.is_queued(id) {
                self.sounds.finish_load(id, id);
            }
        }
    }
}

#[test]
fn a_sound_loads_and_plays_once_ready() {
    let mut host = Host::new();

    // The script requests a load and immediately holds a usable handle.
    let handle = host
        .call("load_sound", vec![Value::Text("a.png".to_owned())])
        .expect("load_sound takes one text");
    assert_eq!(handle, Value::Native(NativeKind::SoundHandle, 0));

    // Playing before any drain is a silent no-op.
    assert_eq!(host.call("play_sound", vec![handle.clone()]), Ok(Value::Unit));
    assert_eq!(host.plays, 0);

    // After the frame's drain the first play has a visible effect.
    host.drain();
    assert_eq!(host.call("play_sound", vec![handle.clone()]), Ok(Value::Unit));
    assert_eq!(host.plays, 1);

    // Later plays keep working from the resolved handle.
    assert_eq!(host.call("play_sound", vec![handle]), Ok(Value::Unit));
    assert_eq!(host.plays, 2);
}

#[test]
fn a_rejected_call_has_no_effect_on_the_host() {
    let mut host = Host::new();

    // Wrong arity: refused before extraction, nothing queued.
    let r = host.call("load_sound", vec![Value::Text("a".to_owned()), Value::Num(1)]);
    assert_eq!(r, Err(CallError::ArityMismatch { expected: 1, got: 2 }));

    // Wrong type: refused before the handler, nothing queued.
    let r = host.call("load_sound", vec![Value::Num(1)]);
    assert_eq!(r, Err(CallError::TypeMismatch { index: 0, expected: ParamKind::Text }));

    // Wrong opaque kind: the position and both kinds are named.
    let r = host.call("play_sound", vec![Value::Native(NativeKind::TextureHandle, 0)]);
    assert_eq!(
        r,
        Err(CallError::WrongNativeKind {
            index: 0,
            expected: NativeKind::SoundHandle,
            found: NativeKind::TextureHandle,
        })
    );

    // No handler ran: the next identifier is still the first one.
    assert_eq!(host.sounds.request("first.wav".to_owned()), 0);
    assert_eq!(host.plays, 0);
}
