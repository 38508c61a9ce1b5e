//! Built-in translations of the tray menu and of the notification texts.
use vstd::prelude::*;
use crate::text::{copy_str, str_eq};

verus! {

/// A translation entry: language, key (the English text), translated text.
pub type Entry = (Seq<char>, Seq<char>, Seq<char>);

/// Translations of the tray menu items.
pub open spec fn menu_entries() -> Seq<Entry> {
    seq![
        ("it"@, "Open TMC"@, "Apri TMC"@),
        ("it"@, "Optimize Memory"@, "Ottimizza Memoria"@),
        ("it"@, "Exit"@, "Esci"@),
        ("es"@, "Open TMC"@, "Abrir TMC"@),
        ("es"@, "Optimize Memory"@, "Optimizar Memoria"@),
        ("es"@, "Exit"@, "Salir"@),
        ("fr"@, "Open TMC"@, "Ouvrir TMC"@),
        ("fr"@, "Optimize Memory"@, "Optimiser la Mémoire"@),
        ("fr"@, "Exit"@, "Quitter"@),
        ("pt"@, "Open TMC"@, "Abrir TMC"@),
        ("pt"@, "Optimize Memory"@, "Otimizar Memória"@),
        ("pt"@, "Exit"@, "Sair"@),
        ("de"@, "Open TMC"@, "TMC Öffnen"@),
        ("de"@, "Optimize Memory"@, "Speicher Optimieren"@),
        ("de"@, "Exit"@, "Beenden"@),
        ("ar"@, "Open TMC"@, "فتح TMC"@),
        ("ar"@, "Optimize Memory"@, "تحسين الذاكرة"@),
        ("ar"@, "Exit"@, "خروج"@),
        ("ja"@, "Open TMC"@, "TMCを開く"@),
        ("ja"@, "Optimize Memory"@, "メモリを最適化"@),
        ("ja"@, "Exit"@, "終了"@),
        ("zh"@, "Open TMC"@, "打开TMC"@),
        ("zh"@, "Optimize Memory"@, "优化内存"@),
        ("zh"@, "Exit"@, "退出"@),
    ]
}

/// Translations of the notification titles and profile names.
pub open spec fn notification_entries() -> Seq<Entry> {
    seq![
        ("it"@, "TMC • Optimization completed"@, "TMC • Ottimizzazione completata"@),
        ("it"@, "TMC • Scheduled optimization"@, "TMC • Ottimizzazione programmata"@),
        ("it"@, "TMC • Low memory optimization"@, "TMC • Ottimizzazione per memoria bassa"@),
        ("it"@, "Normal"@, "Normale"@),
        ("it"@, "Balanced"@, "Bilanciato"@),
        ("it"@, "Gaming"@, "Gaming"@),
        ("es"@, "TMC • Optimization completed"@, "TMC • Optimización completada"@),
        ("es"@, "TMC • Scheduled optimization"@, "TMC • Optimización programada"@),
        ("es"@, "TMC • Low memory optimization"@, "TMC • Optimización por memoria baja"@),
        ("es"@, "Normal"@, "Normal"@),
        ("es"@, "Balanced"@, "Equilibrado"@),
        ("es"@, "Gaming"@, "Gaming"@),
        ("fr"@, "TMC • Optimization completed"@, "TMC • Optimisation terminée"@),
        ("fr"@, "TMC • Scheduled optimization"@, "TMC • Optimisation programmée"@),
        ("fr"@, "TMC • Low memory optimization"@, "TMC • Optimisation mémoire faible"@),
        ("fr"@, "Normal"@, "Normal"@),
        ("fr"@, "Balanced"@, "Équilibré"@),
        ("fr"@, "Gaming"@, "Gaming"@),
        ("pt"@, "TMC • Optimization completed"@, "TMC • Otimização concluída"@),
        ("pt"@, "TMC • Scheduled optimization"@, "TMC • Otimização agendada"@),
        ("pt"@, "TMC • Low memory optimization"@, "TMC • Otimização por memória baixa"@),
        ("pt"@, "Normal"@, "Normal"@),
        ("pt"@, "Balanced"@, "Balanceado"@),
        ("pt"@, "Gaming"@, "Jogos"@),
        ("de"@, "TMC • Optimization completed"@, "TMC • Optimierung abgeschlossen"@),
        ("de"@, "TMC • Scheduled optimization"@, "TMC • Geplante Optimierung"@),
        ("de"@, "TMC • Low memory optimization"@, "TMC • Optimierung bei wenig Speicher"@),
        ("de"@, "Normal"@, "Normal"@),
        ("de"@, "Balanced"@, "Ausgeglichen"@),
        ("de"@, "Gaming"@, "Spielen"@),
        ("ar"@, "TMC • Optimization completed"@, "TMC • اكتمل التحسين"@),
        ("ar"@, "TMC • Scheduled optimization"@, "TMC • تحسين مجدول"@),
        ("ar"@, "TMC • Low memory optimization"@, "TMC • تحسين الذاكرة المنخفضة"@),
        ("ar"@, "Normal"@, "عادي"@),
        ("ar"@, "Balanced"@, "متوازن"@),
        ("ar"@, "Gaming"@, "الألعاب"@),
        ("ja"@, "TMC • Optimization completed"@, "TMC • 最適化完了"@),
        ("ja"@, "TMC • Scheduled optimization"@, "TMC • スケジュール最適化"@),
        ("ja"@, "TMC • Low memory optimization"@, "TMC • メモリ不足最適化"@),
        ("ja"@, "Normal"@, "ノーマル"@),
        ("ja"@, "Balanced"@, "バランス"@),
        ("ja"@, "Gaming"@, "ゲーミング"@),
        ("zh"@, "TMC • Optimization completed"@, "TMC • 优化完成"@),
        ("zh"@, "TMC • Scheduled optimization"@, "TMC • 计划优化"@),
        ("zh"@, "TMC • Low memory optimization"@, "TMC • 低内存优化"@),
        ("zh"@, "Normal"@, "普通"@),
        ("zh"@, "Balanced"@, "平衡"@),
        ("zh"@, "Gaming"@, "游戏"@),
    ]
}

/// The text of the first entry for `lang` and `key`; the key itself (the
/// English text) when there is none.
pub open spec fn lookup_text(table: Seq<Entry>, lang: Seq<char>, key: Seq<char>) -> Seq<char>
    decreases table.len(),
{
    if table.len() == 0 {
        key
    } else if table[0].0 == lang && table[0].1 == key {
        table[0].2
    } else {
        lookup_text(table.drop_first(), lang, key)
    }
}

/// The views of an entry table.
pub open spec fn entry_views(v: Seq<(&str, &str, &str)>) -> Seq<Entry> {
    v.map_values(|e: (&str, &str, &str)| (e.0@, e.1@, e.2@))
}

/// Looks `lang` and `key` up in `table` (see `lookup_text`).
pub fn lookup(table: &Vec<(&str, &str, &str)>, lang: &str, key: &str) -> (r: String)
    ensures
        r@ == lookup_text(entry_views(table@), lang@, key@),
{
    let ghost views = entry_views(table@);
    proof {
        assert(views.skip(0) =~= views);
    }
    let mut i: usize = 0;
    while i < table.len()
        invariant
            i <= table.len(),
            views == entry_views(table@),
            lookup_text(views, lang@, key@) == lookup_text(views.skip(i as int), lang@, key@),
        decreases table.len() - i,
    {
        proof {
            assert(views.skip(i as int).drop_first() =~= views.skip(i + 1));
            assert(views.skip(i as int)[0] == views[i as int]);
        }
        let (l, k, t) = table[i];
        if str_eq(l, lang) && str_eq(k, key) {
            return copy_str(t);
        }
        i = i + 1;
    }
    proof {
        assert(views.skip(table.len() as int).len() == 0);
    }
    copy_str(key)
}

/// The tray-menu entries, as a table.
pub fn menu_table() -> (r: Vec<(&'static str, &'static str, &'static str)>)
    ensures
        entry_views(r@) == menu_entries(),
{
    let r = vec![
        ("it", "Open TMC", "Apri TMC"),
        ("it", "Optimize Memory", "Ottimizza Memoria"),
        ("it", "Exit", "Esci"),
        ("es", "Open TMC", "Abrir TMC"),
        ("es", "Optimize Memory", "Optimizar Memoria"),
        ("es", "Exit", "Salir"),
        ("fr", "Open TMC", "Ouvrir TMC"),
        ("fr", "Optimize Memory", "Optimiser la Mémoire"),
        ("fr", "Exit", "Quitter"),
        ("pt", "Open TMC", "Abrir TMC"),
        ("pt", "Optimize Memory", "Otimizar Memória"),
        ("pt", "Exit", "Sair"),
        ("de", "Open TMC", "TMC Öffnen"),
        ("de", "Optimize Memory", "Speicher Optimieren"),
        ("de", "Exit", "Beenden"),
        ("ar", "Open TMC", "فتح TMC"),
        ("ar", "Optimize Memory", "تحسين الذاكرة"),
        ("ar", "Exit", "خروج"),
        ("ja", "Open TMC", "TMCを開く"),
        ("ja", "Optimize Memory", "メモリを最適化"),
        ("ja", "Exit", "終了"),
        ("zh", "Open TMC", "打开TMC"),
        ("zh", "Optimize Memory", "优化内存"),
        ("zh", "Exit", "退出"),
    ];
    proof {
        assert(entry_views(r@) =~= menu_entries());
    }
    r
}

/// The notification entries, as a table.
pub fn notification_table() -> (r: Vec<(&'static str, &'static str, &'static str)>)
    ensures
        entry_views(r@) == notification_entries(),
{
    let r = vec![
        ("it", "TMC • Optimization completed", "TMC • Ottimizzazione completata"),
        ("it", "TMC • Scheduled optimization", "TMC • Ottimizzazione programmata"),
        ("it", "TMC • Low memory optimization", "TMC • Ottimizzazione per memoria bassa"),
        ("it", "Normal", "Normale"),
        ("it", "Balanced", "Bilanciato"),
        ("it", "Gaming", "Gaming"),
        ("es", "TMC • Optimization completed", "TMC • Optimización completada"),
        ("es", "TMC • Scheduled optimization", "TMC • Optimización programada"),
        ("es", "TMC • Low memory optimization", "TMC • Optimización por memoria baja"),
        ("es", "Normal", "Normal"),
        ("es", "Balanced", "Equilibrado"),
        ("es", "Gaming", "Gaming"),
        ("fr", "TMC • Optimization completed", "TMC • Optimisation terminée"),
        ("fr", "TMC • Scheduled optimization", "TMC • Optimisation programmée"),
        ("fr", "TMC • Low memory optimization", "TMC • Optimisation mémoire faible"),
        ("fr", "Normal", "Normal"),
        ("fr", "Balanced", "Équilibré"),
        ("fr", "Gaming", "Gaming"),
        ("pt", "TMC • Optimization completed", "TMC • Otimização concluída"),
        ("pt", "TMC • Scheduled optimization", "TMC • Otimização agendada"),
        ("pt", "TMC • Low memory optimization", "TMC • Otimização por memória baixa"),
        ("pt", "Normal", "Normal"),
        ("pt", "Balanced", "Balanceado"),
        ("pt", "Gaming", "Jogos"),
        ("de", "TMC • Optimization completed", "TMC • Optimierung abgeschlossen"),
        ("de", "TMC • Scheduled optimization", "TMC • Geplante Optimierung"),
        ("de", "TMC • Low memory optimization", "TMC • Optimierung bei wenig Speicher"),
        ("de", "Normal", "Normal"),
        ("de", "Balanced", "Ausgeglichen"),
        ("de", "Gaming", "Spielen"),
        ("ar", "TMC • Optimization completed", "TMC • اكتمل التحسين"),
        ("ar", "TMC • Scheduled optimization", "TMC • تحسين مجدول"),
        ("ar", "TMC • Low memory optimization", "TMC • تحسين الذاكرة المنخفضة"),
        ("ar", "Normal", "عادي"),
        ("ar", "Balanced", "متوازن"),
        ("ar", "Gaming", "الألعاب"),
        ("ja", "TMC • Optimization completed", "TMC • 最適化完了"),
        ("ja", "TMC • Scheduled optimization", "TMC • スケジュール最適化"),
        ("ja", "TMC • Low memory optimization", "TMC • メモリ不足最適化"),
        ("ja", "Normal", "ノーマル"),
        ("ja", "Balanced", "バランス"),
        ("ja", "Gaming", "ゲーミング"),
        ("zh", "TMC • Optimization completed", "TMC • 优化完成"),
        ("zh", "TMC • Scheduled optimization", "TMC • 计划优化"),
        ("zh", "TMC • Low memory optimization", "TMC • 低内存优化"),
        ("zh", "Normal", "普通"),
        ("zh", "Balanced", "平衡"),
        ("zh", "Gaming", "游戏"),
    ];
    proof {
        assert(entry_views(r@) =~= notification_entries());
    }
    r
}

/// The translation of `key` into `lang` among the menu and notification
/// texts; the key itself (its English text) otherwise.
pub fn t(lang: &str, key: &str) -> (r: String)
    ensures
        r@ == lookup_text(menu_entries() + notification_entries(), lang@, key@),
{
    let mut table = menu_table();
    let mut rest = notification_table();
    let ghost a = table@;
    let ghost b = rest@;
    table.append(&mut rest);
    proof {
        assert(entry_views(table@) =~= entry_views(a) + entry_views(b));
    }
    lookup(&table, lang, key)
}


/// The languages the tables translate to.
pub open spec fn translated_language(l: Seq<char>) -> bool {
    l == "it"@ || l == "es"@ || l == "fr"@ || l == "pt"@ || l == "de"@ || l == "ar"@ || l == "ja"@
        || l == "zh"@
}

/// The keys the tables translate.
pub open spec fn translated_key(k: Seq<char>) -> bool {
    k == "Open TMC"@ || k == "Optimize Memory"@ || k == "Exit"@ || k
        == "TMC • Optimization completed"@ || k == "TMC • Scheduled optimization"@ || k
        == "TMC • Low memory optimization"@ || k == "Normal"@ || k == "Balanced"@ || k
        == "Gaming"@
}

/// Every entry from index `i` on is for a translated language and key.
pub open spec fn entries_known_from(table: Seq<Entry>, i: nat) -> bool
    decreases table.len() - i,
{
    if i >= table.len() {
        true
    } else {
        translated_language(table[i as int].0) && translated_key(table[i as int].1)
            && entries_known_from(table, i + 1)
    }
}

proof fn lemma_menu_known()
    ensures
        entries_known_from(menu_entries(), 0),
{
    reveal_with_fuel(entries_known_from, 25);
}

#[verifier::rlimit(50)]
proof fn lemma_notifications_known()
    ensures
        entries_known_from(notification_entries(), 0),
{
    reveal_with_fuel(entries_known_from, 49);
}

proof fn lemma_known_from_all(table: Seq<Entry>, i: nat)
    requires
        entries_known_from(table, i),
    ensures
        forall|k: int|
            i <= k < table.len() ==> translated_language(#[trigger] table[k].0) && translated_key(
                table[k].1,
            ),
    decreases table.len() - i,
{
    if i < table.len() {
        lemma_known_from_all(table, i + 1);
    }
}

proof fn lemma_lookup_absent(table: Seq<Entry>, lang: Seq<char>, key: Seq<char>)
    requires
        forall|k: int| 0 <= k < table.len() ==> !(#[trigger] table[k].0 == lang && table[k].1 == key),
    ensures
        lookup_text(table, lang, key) == key,
    decreases table.len(),
{
    if table.len() > 0 {
        assert forall|k: int| 0 <= k < table.drop_first().len() implies !(
        #[trigger] table.drop_first()[k].0 == lang && table.drop_first()[k].1 == key) by {
            assert(table.drop_first()[k] == table[k + 1]);
        }
        lemma_lookup_absent(table.drop_first(), lang, key);
    }
}

/// The English text is the fallback: for a language the tables do not
/// translate to, or a key they do not translate, `t` gives back the key.
pub proof fn lemma_t_falls_back(lang: Seq<char>, key: Seq<char>)
    requires
        !translated_language(lang) || !translated_key(key),
    ensures
        lookup_text(menu_entries() + notification_entries(), lang, key) == key,
{
    let table = menu_entries() + notification_entries();
    lemma_menu_known();
    lemma_notifications_known();
    lemma_known_from_all(menu_entries(), 0);
    lemma_known_from_all(notification_entries(), 0);
    assert forall|k: int| 0 <= k < table.len() implies translated_language(#[trigger] table[k].0)
        && translated_key(table[k].1) by {
        if k < menu_entries().len() {
            assert(table[k] == menu_entries()[k]);
        } else {
            assert(table[k] == notification_entries()[k - menu_entries().len()]);
        }
    }
    lemma_lookup_absent(table, lang, key);
}

} // verus!
